//! A running session: the chain, the scheduler, the food slot and the
//! random source, advanced one scheduling pass at a time.

use vstd::prelude::*;

use crate::geom::{Pos, Dir, in_range, stepped_back, next_pos, next_dir, on_grid};
use crate::chain::{Chain, distinct, self_hit, lemma_tick_keeps_distinct};
use crate::timer::TickTimer;
use crate::speed::{spec_duration_us, duration_us, lemma_duration_above_floor, START_DURATION_US};
use crate::food::{spawn_food, board_full};

verus! {

/// What one scheduling pass did: nothing (the timer did not fire), a plain
/// move, or a move that ate the food.
#[derive(Clone, Copy, Debug, PartialEq, Eq, Structural)]
pub enum TickState {
    Idle,
    Moved,
    Ate,
}

/// The chain positions after a plain move: the head one cell ahead (with
/// wraparound), every body slot holding its forward neighbour's old
/// position, the old tail position given up.
pub open spec fn moved_view(pre: Seq<Pos>, d: Dir) -> Seq<Pos> {
    Seq::new(pre.len(), |i: int| if i == 0 { next_pos(pre[0], d) } else { pre[i - 1] })
}

/// The chain positions after an eating move: as after a plain move, but
/// nothing is given up — the chain is one segment longer.
pub open spec fn grown_view(pre: Seq<Pos>, d: Dir) -> Seq<Pos> {
    Seq::new(pre.len() + 1, |i: int| if i == 0 { next_pos(pre[0], d) } else { pre[i - 1] })
}

/// What a drawn cell shows. The renderer keys its fixed colours off this;
/// the kinds carry no further meaning.
#[derive(Clone, Copy, Debug, PartialEq, Eq, Structural)]
pub enum CellKind {
    Head,
    Body,
    Food,
}

/// One running game: every piece of mutable state the per-pass update
/// touches, owned in one place.
pub struct Session {
    /// The segment chain.
    pub chain: Chain,
    /// The scheduler gate.
    pub timer: TickTimer,
    /// The food, if one is on the board. Eating empties the slot; the next
    /// scheduling pass refills it.
    pub food: Option<Pos>,
    /// The session's random source, seeded once by the host.
    pub rng: rand::rngs::StdRng,
    /// False once the session has terminated (self-collision, or a full
    /// board leaving food nowhere to spawn).
    pub live: bool,
}

impl Session {
    /// The session's structures are well-formed.
    pub open spec fn wf(self) -> bool {
        &&& self.chain.wf()
        &&& self.timer.wf()
    }

    /// A fresh session: a three-segment chain with its head at `head_pos`
    /// facing `d`, the scheduler at its starting cadence, and `food` on the
    /// board (`None` lets the first scheduling pass place one at random).
    pub fn new(head_pos: Pos, d: Dir, food: Option<Pos>, rng: rand::rngs::StdRng) -> (r: Session)
        requires
            in_range(head_pos),
            in_range(stepped_back(head_pos, d)),
            in_range(stepped_back(stepped_back(head_pos, d), d)),
        ensures
            r.wf(),
            r.chain@ =~= seq![
                head_pos,
                stepped_back(head_pos, d),
                stepped_back(stepped_back(head_pos, d), d),
            ],
            r.chain.dir == d,
            r.timer.duration_us == START_DURATION_US,
            r.timer.remaining_us == START_DURATION_US,
            r.food == food,
            r.live,
            distinct(r.chain@),
    {
        Session {
            chain: Chain::new(head_pos, d),
            timer: TickTimer::new(START_DURATION_US),
            food,
            rng,
            live: true,
        }
    }

    /// A session resumed from explicit parts, for a host that lays out its
    /// own starting state.
    pub fn from_parts(chain: Chain, duration_us: u64, food: Option<Pos>, rng: rand::rngs::StdRng)
        -> (r: Session)
        requires
            chain.wf(),
            duration_us >= 1,
        ensures
            r.wf(),
            r.chain == chain,
            r.timer.duration_us == duration_us,
            r.timer.remaining_us == duration_us,
            r.food == food,
            r.live,
    {
        Session { chain, timer: TickTimer::new(duration_us), food, rng, live: true }
    }

    /// Applies a buffered direction input: a request for the exact opposite
    /// of the current heading is dropped, anything else becomes the new
    /// heading. Nothing but the heading changes.
    pub fn on_direction_input(&mut self, req: Dir)
        ensures
            final(self).chain.dir == next_dir(old(self).chain.dir, req),
            final(self).chain@ == old(self).chain@,
            final(self).timer == old(self).timer,
            final(self).food == old(self).food,
            final(self).live == old(self).live,
            old(self).wf() ==> final(self).wf(),
    {
        self.chain.steer(req);
    }

    /// What there is to draw this frame: the head, then every body segment
    /// from neck to tail, then the food if one is on the board.
    pub fn frame(&self) -> (r: Vec<(Pos, CellKind)>)
        requires
            self.wf(),
        ensures
            r@.len() == self.chain@.len() + (if self.food is Some {
                1int
            } else {
                0int
            }),
            forall|i: int|
                0 <= i < self.chain@.len() ==> (#[trigger] r@[i]).0 == self.chain@[i] && r@[i].1
                    == (if i == 0 {
                    CellKind::Head
                } else {
                    CellKind::Body
                }),
            self.food matches Some(f) ==> r@[r@.len() - 1] == (f, CellKind::Food),
    {
        let ps = self.chain.positions();
        let mut out: Vec<(Pos, CellKind)> = Vec::new();
        let mut i: usize = 0;
        while i < ps.len()
            invariant
                ps@ == self.chain@,
                i == out@.len(),
                i <= ps@.len(),
                forall|k: int|
                    0 <= k < i ==> (#[trigger] out@[k]).0 == self.chain@[k] && out@[k].1 == (if k
                        == 0 {
                        CellKind::Head
                    } else {
                        CellKind::Body
                    }),
            decreases ps@.len() - i,
        {
            out.push((ps[i], if i == 0 {
                CellKind::Head
            } else {
                CellKind::Body
            }));
            i += 1;
        }
        match self.food {
            Some(f) => {
                out.push((f, CellKind::Food));
            },
            None => {},
        }
        out
    }

    /// One scheduling pass, `delta_us` microseconds after the previous one.
    ///
    /// First, an empty food slot is refilled with a fresh food on a cell the
    /// chain does not hold (on a full board no cell is admissible — the
    /// fatal condition — and the session ends unchanged). Then the scheduler
    /// gate decides: if the countdown did not complete, the pass is `Idle`
    /// and nothing moves. Otherwise the head advances one cell along its
    /// heading with wraparound; if it lands on the food, the food is
    /// destroyed and the scheduler's duration is recomputed by the speed law
    /// from the pre-growth chain length, and the pass is `Ate`, else
    /// `Moved`. The body then follows: growth inserts a new neck on `Ate`,
    /// the tail is recycled as the new neck on `Moved`. Last, if any body
    /// segment now shares the head's cell, the session terminates.
    pub fn tick(&mut self, delta_us: u64) -> (r: TickState)
        requires
            old(self).wf(),
            old(self).live,
        ensures
            final(self).wf(),
            final(self).chain.dir == old(self).chain.dir,
            old(self).food is None && board_full(old(self).chain@) ==> {
                &&& r == TickState::Idle
                &&& !final(self).live
                &&& final(self).chain@ == old(self).chain@
                &&& final(self).food is None
                &&& final(self).timer == old(self).timer
            },
            !(old(self).food is None && board_full(old(self).chain@)) ==> {
                let pre = old(self).chain@;
                let d = old(self).chain.dir;
                let fired = old(self).timer.fires(delta_us);
                let nh = next_pos(pre[0], d);
                &&& final(self).timer.remaining_us == old(self).timer.spec_remaining_after(
                    delta_us)
                &&& (r == TickState::Idle <==> !fired)
                &&& (r == TickState::Ate ==> final(self).timer.duration_us == spec_duration_us(
                    pre.len() as int))
                &&& (r != TickState::Ate ==> final(self).timer.duration_us == old(
                    self).timer.duration_us)
                &&& (r == TickState::Idle ==> final(self).chain@ == pre && final(self).live)
                &&& (r == TickState::Moved ==> final(self).chain@ == moved_view(pre, d)
                    && final(self).chain@.len() == pre.len())
                &&& (r == TickState::Ate ==> final(self).chain@ == grown_view(pre, d)
                    && final(self).chain@.len() == pre.len() + 1 && final(self).food is None)
                &&& (old(self).food is Some && r != TickState::Ate ==> final(self).food == old(
                    self).food)
                &&& (old(self).food is None && r != TickState::Ate ==> (final(
                    self).food matches Some(f) && on_grid(f) && !pre.contains(f)))
                &&& (fired && old(self).food is Some ==> (r == TickState::Ate <==> old(self).food
                    == Some(nh)))
                &&& (r == TickState::Ate && old(self).food is None ==> on_grid(nh)
                    && !pre.contains(nh))
                &&& (r == TickState::Moved ==> final(self).food is Some && final(self).food
                    != Some(nh))
                &&& (r == TickState::Idle ==> final(self).live)
                &&& (r != TickState::Idle ==> final(self).live == !self_hit(final(self).chain@))
                &&& (r != TickState::Idle && distinct(pre) && final(self).live ==> distinct(
                    final(self).chain@))
            },
    {
        let ghost pre = old(self).chain@;
        // a food eaten on the previous pass respawns at the start of this one
        if self.food.is_none() {
            let occ = self.chain.positions();
            match spawn_food(&occ, &mut self.rng) {
                Some(f) => {
                    self.food = Some(f);
                },
                None => {
                    // the board is fully occupied: nowhere to continue
                    self.live = false;
                    return TickState::Idle;
                },
            }
        }
        let fired = self.timer.advance(delta_us);
        if !fired {
            return TickState::Idle;
        }
        let pre_len = self.chain.len();
        self.chain.advance_head();
        let ghost mid = self.chain@;
        let hp = self.chain.head_position();
        let mut state = TickState::Moved;
        match self.food {
            Some(f) => {
                if f == hp {
                    self.food = None;
                    proof {
                        lemma_duration_above_floor(pre_len as int);
                    }
                    let new_duration = duration_us(pre_len);
                    self.timer.set_duration(new_duration);
                    state = TickState::Ate;
                }
            },
            None => {},
        }
        if state == TickState::Ate {
            self.chain.grow();
            proof {
                assert(self.chain@ =~= grown_view(pre, old(self).chain.dir));
            }
        } else {
            self.chain.propagate_move();
            proof {
                assert(self.chain@ =~= moved_view(pre, old(self).chain.dir));
            }
        }
        if self.chain.collides() {
            self.live = false;
        }
        proof {
            if distinct(pre) && self.live {
                lemma_tick_keeps_distinct(pre, self.chain@);
            }
        }
        state
    }
}

} // verus!
