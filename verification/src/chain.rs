//! The segment chain: an arena of body segments with role tags and a
//! "follows" linkage, moved by recycling the tail as the new neck (an O(1)
//! rotation) and grown by inserting a new neck right behind the head.

use vstd::prelude::*;

use crate::geom::{Pos, Dir, in_range, next_pos, stepped_back, next_dir, advance, opposite};

verus! {

/// The role a segment plays in the chain. `Head` and `Tail` are unique;
/// `Neck` marks the segment immediately following the head (where growth
/// inserts); every other segment is a plain `Mid`.
#[derive(Clone, Copy, Debug, PartialEq, Eq, Structural)]
pub enum Role {
    Head,
    Neck,
    Mid,
    Tail,
}

/// One body cell, stored in the chain's arena.
#[derive(Clone, Copy, Debug)]
pub struct Segment {
    /// Where the segment sits on the board.
    pub pos: Pos,
    /// The segment's role tag.
    pub role: Role,
    /// Arena index of the segment this one follows (its neighbour nearer
    /// the head). For the head itself the field is meaningless.
    pub fwd: usize,
}

/// The whole chain. Segments live in an arena (`segs`), at stable indices
/// that never move; chain order is carried by the `fwd` links and, in ghost
/// state, by `order`: the arena indices listed from head to tail.
pub struct Chain {
    /// The arena of segments.
    pub segs: Vec<Segment>,
    /// Arena index of the head.
    pub head: usize,
    /// Arena index of the neck.
    pub neck: usize,
    /// Arena index of the tail.
    pub tail: usize,
    /// The head's current direction of travel.
    pub dir: Dir,
    /// The position the head held before its last move; movement propagates
    /// one hop down the chain from here.
    pub head_prev: Pos,
    /// Ghost: the arena indices in chain order, head first.
    pub order: Ghost<Seq<int>>,
}

impl View for Chain {
    type V = Seq<Pos>;

    /// The chain abstractly: its segment positions from head to tail.
    open spec fn view(&self) -> Seq<Pos> {
        Seq::new(self.order@.len(), |i: int| self.segs@[self.order@[i]].pos)
    }
}

impl Chain {
    /// Number of segments.
    pub open spec fn n(self) -> int {
        self.order@.len() as int
    }

    /// Arena index `j` appears somewhere in the chain order.
    pub open spec fn covers(self, j: int) -> bool {
        exists|i: int| 0 <= i < self.n() && self.order@[i] == j
    }

    /// Well-formedness: the chain order is a permutation of the arena, at
    /// least three segments long; roles are head, neck, mids, tail in that
    /// order; each non-head segment's `fwd` link names its neighbour nearer
    /// the head; and every position is on the board.
    pub open spec fn wf(self) -> bool {
        let o = self.order@;
        let n = self.n();
        &&& self.segs@.len() == n
        &&& n >= 3
        &&& forall|i: int| 0 <= i < n ==> 0 <= #[trigger] o[i] < n
        &&& forall|i: int, j: int| 0 <= i < n && 0 <= j < n && i != j ==> o[i] != o[j]
        &&& forall|j: int| 0 <= j < n ==> #[trigger] self.covers(j)
        &&& self.head == o[0]
        &&& self.neck == o[1]
        &&& self.tail == o[n - 1]
        &&& self.segs@[o[0]].role == Role::Head
        &&& self.segs@[o[1]].role == Role::Neck
        &&& self.segs@[o[n - 1]].role == Role::Tail
        &&& forall|i: int| 2 <= i < n - 1 ==> self.segs@[#[trigger] o[i]].role == Role::Mid
        &&& forall|i: int| 1 <= i < n ==> self.segs@[#[trigger] o[i]].fwd == o[i - 1]
        &&& forall|i: int| 0 <= i < n ==> in_range(#[trigger] self.segs@[i].pos)
        &&& in_range(self.head_prev)
    }

    /// A fresh three-segment chain: head at `head_pos`, facing `d`, with the
    /// neck and the tail laid out one and two cells behind it.
    pub fn new(head_pos: Pos, d: Dir) -> (r: Chain)
        requires
            in_range(head_pos),
            in_range(stepped_back(head_pos, d)),
            in_range(stepped_back(stepped_back(head_pos, d), d)),
        ensures
            r.wf(),
            r@.len() == 3,
            r@[0] == head_pos,
            r@[1] == stepped_back(head_pos, d),
            r@[2] == stepped_back(stepped_back(head_pos, d), d),
            r.dir == d,
            r.head_prev == head_pos,
            distinct(r@),
    {
        let ghost og: Seq<int> = seq![0int, 1int, 2int];
        let (dx, dy) = crate::geom::step(d);
        let neck_pos = Pos { x: head_pos.x - dx, y: head_pos.y - dy };
        let tail_pos = Pos { x: neck_pos.x - dx, y: neck_pos.y - dy };
        let mut segs: Vec<Segment> = Vec::new();
        segs.push(Segment { pos: head_pos, role: Role::Head, fwd: 0 });
        segs.push(Segment { pos: neck_pos, role: Role::Neck, fwd: 0 });
        segs.push(Segment { pos: tail_pos, role: Role::Tail, fwd: 1 });
        let r = Chain {
            segs,
            head: 0,
            neck: 1,
            tail: 2,
            dir: d,
            head_prev: head_pos,
            order: Ghost(og),
        };
        proof {
            assert(r.order@[0] == 0 && r.order@[1] == 1 && r.order@[2] == 2);
            assert forall|j: int| 0 <= j < r.n() implies #[trigger] r.covers(j) by {
                assert(r.order@[j] == j);
            }
            assert(r@ =~= seq![head_pos, neck_pos, tail_pos]);
        }
        r
    }

    /// Applies a direction input: a request for the exact opposite of the
    /// current direction is dropped, any other request becomes the new
    /// heading. Nothing else changes.
    #[verifier::rlimit(100)]
    pub fn steer(&mut self, req: Dir)
        ensures
            final(self).dir == next_dir(old(self).dir, req),
            final(self).segs == old(self).segs,
            final(self).head == old(self).head,
            final(self).neck == old(self).neck,
            final(self).tail == old(self).tail,
            final(self).head_prev == old(self).head_prev,
            final(self).order == old(self).order,
            final(self)@ == old(self)@,
            old(self).wf() ==> final(self).wf(),
    {
        let o = opposite(self.dir);
        if req != o {
            self.dir = req;
        }
        proof {
            if old(self).wf() {
                assert forall|j: int| 0 <= j < self.n() implies #[trigger] self.covers(j) by {
                    assert(old(self).covers(j));
                    let k = choose|k: int|
                        0 <= k < old(self).n() && old(self).order@[k] == j;
                    assert(self.order@[k] == j);
                }
            }
            assert(self@ =~= old(self)@);
        }
    }

    /// Number of segments in the chain.
    pub fn len(&self) -> (r: usize)
        requires
            self.wf(),
        ensures
            r == self@.len(),
    {
        self.segs.len()
    }

    /// The head's position.
    pub fn head_position(&self) -> (r: Pos)
        requires
            self.wf(),
        ensures
            r == self@[0],
    {
        self.segs[self.head].pos
    }

    /// Records the head's position as `head_prev`, then moves the head one
    /// cell along its direction, with wraparound. The body does not move
    /// yet: propagation or growth follows.
    #[verifier::rlimit(100)]
    pub fn advance_head(&mut self)
        requires
            old(self).wf(),
        ensures
            final(self).wf(),
            final(self)@.len() == old(self)@.len(),
            final(self)@[0] == next_pos(old(self)@[0], old(self).dir),
            forall|i: int| 1 <= i < old(self)@.len() ==> final(self)@[i] == old(self)@[i],
            final(self).head_prev == old(self)@[0],
            final(self).dir == old(self).dir,
    {
        let h = self.head;
        let p = self.segs[h].pos;
        self.head_prev = p;
        let np = advance(p, self.dir);
        let mut s = self.segs[h];
        s.pos = np;
        self.segs.set(h, s);
        proof {
            crate::geom::lemma_wrap_in_range(crate::geom::stepped(p, self.dir));
            assert forall|j: int| 0 <= j < self.n() implies #[trigger] self.covers(j) by {
                assert(old(self).covers(j));
                let k = choose|k: int| 0 <= k < old(self).n() && old(self).order@[k] == j;
                assert(self.order@[k] == j);
            }
            assert forall|i: int| 0 <= i < final(self)@.len() && i != 0 implies final(self)@[i]
                == old(self)@[i] by {
                assert(self.order@[i] != self.order@[0]);
            }
        }
    }

    /// Propagation on a plain move: the tail segment is relocated to the
    /// head's previous position and recycled as the new neck, the old neck
    /// becomes a plain mid, and the segment the tail followed becomes the
    /// new tail. The net effect is that the whole body follows the head one
    /// step, in constant time.
    #[verifier::rlimit(100)]
    pub fn propagate_move(&mut self)
        requires
            old(self).wf(),
        ensures
            final(self).wf(),
            final(self)@.len() == old(self)@.len(),
            final(self)@[0] == old(self)@[0],
            final(self)@[1] == old(self).head_prev,
            forall|i: int| 2 <= i < final(self)@.len() ==> final(self)@[i] == old(self)@[i - 1],
            final(self).dir == old(self).dir,
            final(self).head_prev == old(self).head_prev,
    {
        let ghost o = self.order@;
        let ghost n = self.n();
        let t = self.tail;
        let nk = self.neck;
        let nt = self.segs[t].fwd;
        // the old neck becomes a plain mid, now following the recycled tail
        let mut s_nk = self.segs[nk];
        s_nk.role = Role::Mid;
        s_nk.fwd = t;
        self.segs.set(nk, s_nk);
        // the tail is recycled as the new neck at the head's previous position
        let mut s_t = self.segs[t];
        s_t.pos = self.head_prev;
        s_t.role = Role::Neck;
        s_t.fwd = self.head;
        self.segs.set(t, s_t);
        // the segment the old tail followed becomes the new tail
        let mut s_nt = self.segs[nt];
        s_nt.role = Role::Tail;
        self.segs.set(nt, s_nt);
        self.neck = t;
        self.tail = nt;
        let ghost no_seq = seq![o[0], o[n - 1]] + o.subrange(1, n - 1);
        self.order = Ghost(no_seq);
        proof {
            let no = self.order@;
            assert(no.len() == n);
            assert(no[0] == o[0]);
            assert(no[1] == o[n - 1]);
            assert forall|i: int| 2 <= i < n implies no[i] == o[i - 1] by {
                assert(no[i] == o.subrange(1, n - 1)[i - 2]);
            }
            assert forall|i: int| 0 <= i < n implies 0 <= #[trigger] no[i] < n by {
                if i >= 2 {
                    assert(no[i] == o[i - 1]);
                }
            }
            assert forall|i: int, j: int| 0 <= i < n && 0 <= j < n && i != j implies no[i]
                != no[j] by {
                assert(no[0] == o[0] && no[1] == o[n - 1]);
                if i >= 2 {
                    assert(no[i] == o[i - 1]);
                }
                if j >= 2 {
                    assert(no[j] == o[j - 1]);
                }
            }
            assert forall|j: int| 0 <= j < n implies #[trigger] self.covers(j) by {
                assert(old(self).covers(j));
                let k = choose|k: int| 0 <= k < n && o[k] == j;
                if k == 0 {
                    assert(no[0] == j);
                } else if k == n - 1 {
                    assert(no[1] == j);
                } else {
                    assert(no[k + 1] == o[k]);
                }
            }
            assert forall|i: int| 0 <= i < n implies final(self)@[i] == (if i == 0 {
                old(self)@[0]
            } else if i == 1 {
                old(self).head_prev
            } else {
                old(self)@[i - 1]
            }) by {
                if i >= 2 {
                    assert(no[i] == o[i - 1]);
                }
            }
        }
    }

    /// Propagation on an eating move: a new segment is allocated at the
    /// head's previous position and inserted as the new neck; the old neck
    /// becomes a plain mid. The tail is untouched, so the chain grows by
    /// exactly one segment.
    #[verifier::rlimit(100)]
    pub fn grow(&mut self)
        requires
            old(self).wf(),
        ensures
            final(self).wf(),
            final(self)@.len() == old(self)@.len() + 1,
            final(self)@[0] == old(self)@[0],
            final(self)@[1] == old(self).head_prev,
            forall|i: int| 2 <= i < final(self)@.len() ==> final(self)@[i] == old(self)@[i - 1],
            final(self).dir == old(self).dir,
            final(self).head_prev == old(self).head_prev,
    {
        let ghost o = self.order@;
        let ghost n = self.n();
        let nk = self.neck;
        let new_idx = self.segs.len();
        self.segs.push(Segment { pos: self.head_prev, role: Role::Neck, fwd: self.head });
        // the old neck becomes a plain mid, now following the new neck
        let mut s_nk = self.segs[nk];
        s_nk.role = Role::Mid;
        s_nk.fwd = new_idx;
        self.segs.set(nk, s_nk);
        self.neck = new_idx;
        let ghost no_seq = seq![o[0], n] + o.subrange(1, n);
        self.order = Ghost(no_seq);
        proof {
            let no = self.order@;
            assert(no.len() == n + 1);
            assert(no[0] == o[0]);
            assert(no[1] == n);
            assert forall|i: int| 2 <= i < n + 1 implies no[i] == o[i - 1] by {
                assert(no[i] == o.subrange(1, n)[i - 2]);
            }
            assert forall|i: int| 0 <= i < n + 1 implies 0 <= #[trigger] no[i] < n + 1 by {
                if i >= 2 {
                    assert(no[i] == o[i - 1]);
                }
            }
            assert forall|i: int, j: int| 0 <= i < n + 1 && 0 <= j < n + 1 && i != j implies no[i]
                != no[j] by {
                if i >= 2 {
                    assert(no[i] == o[i - 1]);
                }
                if j >= 2 {
                    assert(no[j] == o[j - 1]);
                }
            }
            assert forall|j: int| 0 <= j < n + 1 implies #[trigger] self.covers(j) by {
                if j == n {
                    assert(no[1] == j);
                } else {
                    assert(old(self).covers(j));
                    let k = choose|k: int| 0 <= k < n && o[k] == j;
                    if k == 0 {
                        assert(no[0] == j);
                    } else {
                        assert(no[k + 1] == o[k]);
                    }
                }
            }
            assert forall|i: int| 0 <= i < n + 1 implies final(self)@[i] == (if i == 0 {
                old(self)@[0]
            } else if i == 1 {
                old(self).head_prev
            } else {
                old(self)@[i - 1]
            }) by {
                if i >= 2 {
                    assert(no[i] == o[i - 1]);
                }
            }
        }
    }

    /// Whether any body segment sits on the head's cell. Cells are `CELL`
    /// apart, so "within the proximity threshold of the head" is equality
    /// of positions.
    pub fn collides(&self) -> (r: bool)
        requires
            self.wf(),
        ensures
            r == self_hit(self@),
    {
        let h = self.head;
        let hp = self.segs[h].pos;
        let mut j: usize = 0;
        let mut found = false;
        while j < self.segs.len()
            invariant
                self.wf(),
                h == self.head,
                hp == self@[0],
                j <= self.segs@.len(),
                found == exists|jj: int|
                    0 <= jj < j && jj != h && self.segs@[jj].pos == hp,
            decreases self.segs@.len() - j,
        {
            if j != h && self.segs[j].pos == hp {
                found = true;
            }
            j += 1;
        }
        proof {
            if found {
                let jj = choose|jj: int| 0 <= jj < self.segs@.len() && jj != h
                    && self.segs@[jj].pos == hp;
                assert(self.covers(jj));
                let i = choose|i: int| 0 <= i < self.n() && self.order@[i] == jj;
                assert(i != 0);
                assert(self@[i] == self@[0]);
            } else {
                assert forall|i: int| 1 <= i < self@.len() implies #[trigger] self@[i]
                    != self@[0] by {
                    assert(self.order@[i] != self.order@[0]);
                }
            }
        }
        found
    }

    /// The segment positions from head to tail, as a plain vector: the walk
    /// follows the `fwd` links up from the tail, then flips the result.
    pub fn positions(&self) -> (r: Vec<Pos>)
        requires
            self.wf(),
        ensures
            r@ == self@,
    {
        let ghost n = self.n();
        let mut rev: Vec<Pos> = Vec::new();
        let mut cur = self.tail;
        let ghost mut i: int = n - 1;
        while cur != self.head
            invariant
                self.wf(),
                n == self.n(),
                0 <= i < n,
                cur == self.order@[i],
                rev@.len() == n - 1 - i,
                forall|k: int| 0 <= k < rev@.len() ==> rev@[k] == self@[n - 1 - k],
            decreases i,
        {
            proof {
                assert(self.order@[i] != self.order@[0]);
                assert(i != 0);
            }
            rev.push(self.segs[cur].pos);
            cur = self.segs[cur].fwd;
            proof {
                i = i - 1;
            }
        }
        proof {
            assert(self.order@[i] == self.order@[0]);
            assert(i == 0);
        }
        rev.push(self.segs[cur].pos);
        let mut out: Vec<Pos> = Vec::new();
        let mut j: usize = 0;
        while j < rev.len()
            invariant
                rev@.len() == n,
                n == self.n(),
                self.wf(),
                forall|k: int| 0 <= k < n ==> rev@[k] == self@[n - 1 - k],
                j == out@.len(),
                j <= n,
                forall|k: int| 0 <= k < j ==> out@[k] == self@[k],
            decreases rev@.len() - j,
        {
            out.push(rev[rev.len() - 1 - j]);
            j += 1;
        }
        proof {
            assert(out@ =~= self@);
        }
        out
    }
}

/// All segment positions are pairwise distinct.
pub open spec fn distinct(v: Seq<Pos>) -> bool {
    forall|i: int, j: int| 0 <= i < j < v.len() ==> v[i] != v[j]
}

/// Some body segment sits on the head's cell.
pub open spec fn self_hit(v: Seq<Pos>) -> bool {
    exists|i: int| 1 <= i < v.len() && #[trigger] v[i] == v[0]
}

/// After a tick's propagation — the body shifted one slot toward the head,
/// whether or not a new segment was inserted — a chain of pairwise-distinct
/// positions is still pairwise distinct, unless the head landed on a body
/// segment (and the session terminates).
pub proof fn lemma_tick_keeps_distinct(pre: Seq<Pos>, post: Seq<Pos>)
    requires
        distinct(pre),
        pre.len() >= 1,
        post.len() >= 1,
        post.len() <= pre.len() + 1,
        forall|i: int| 1 <= i < post.len() ==> post[i] == pre[i - 1],
        !self_hit(post),
    ensures
        distinct(post),
{
    assert forall|i: int, j: int| 0 <= i < j < post.len() implies post[i] != post[j] by {
        if i == 0 {
            if post[j] == post[0] {
                assert(self_hit(post));
            }
        } else {
            assert(pre[i - 1] != pre[j - 1]);
        }
    }
}

} // verus!
