use greedy_snake::chain::Chain;
use greedy_snake::geom::{Dir, Pos};
use greedy_snake::session::{CellKind, Session, TickState};
use rand::SeedableRng;

fn rng(seed: u64) -> rand::rngs::StdRng {
    rand::rngs::StdRng::seed_from_u64(seed)
}

fn pos(x: i64, y: i64) -> Pos {
    Pos { x, y }
}

const SECOND: u64 = 1_000_000;

#[test]
fn first_fired_tick_moves_the_whole_chain_up() {
    let mut s = Session::new(pos(0, 0), Dir::Up, Some(pos(100, 100)), rng(1));
    let state = s.tick(SECOND);
    assert_eq!(state, TickState::Moved);
    assert!(s.live);
    assert_eq!(s.chain.len(), 3);
    // the head moved one cell up; the old head cell is the new neck's, the
    // old neck cell the new tail's
    assert_eq!(s.chain.positions(), vec![pos(0, 20), pos(0, 0), pos(0, -20)]);
}

#[test]
fn the_head_wraps_at_the_board_edge() {
    let mut s = Session::new(pos(100, 0), Dir::Right, Some(pos(0, 100)), rng(1));
    let state = s.tick(SECOND);
    assert_eq!(state, TickState::Moved);
    assert_eq!(s.chain.head_position(), pos(-100, 0));
    assert_eq!(s.chain.positions(), vec![pos(-100, 0), pos(100, 0), pos(80, 0)]);
}

#[test]
fn an_unfired_pass_is_idle_and_moves_nothing() {
    let mut s = Session::new(pos(0, 0), Dir::Up, Some(pos(100, 100)), rng(1));
    let state = s.tick(SECOND / 2);
    assert_eq!(state, TickState::Idle);
    assert_eq!(s.chain.positions(), vec![pos(0, 0), pos(0, -20), pos(0, -40)]);
    assert!(s.live);
}

#[test]
fn eating_grows_the_chain_and_speeds_up_the_scheduler() {
    // food exactly on the head's next cell
    let mut s = Session::new(pos(0, 0), Dir::Up, Some(pos(0, 20)), rng(1));
    let state = s.tick(SECOND);
    assert_eq!(state, TickState::Ate);
    assert!(s.live);
    // the food is destroyed, the chain one segment longer, the tail untouched
    assert_eq!(s.food, None);
    assert_eq!(s.chain.len(), 4);
    assert_eq!(s.chain.positions(), vec![pos(0, 20), pos(0, 0), pos(0, -20), pos(0, -40)]);
    // the speed law, applied to the pre-growth length 3
    assert_eq!(s.timer.duration_us, 956_106);
    // the replacement food arrives on the immediately following pass
    let state = s.tick(0);
    assert_eq!(state, TickState::Idle);
    assert!(s.food.is_some());
    assert!(!s.chain.positions().contains(&s.food.unwrap()));
}

#[test]
fn moving_into_a_body_cell_terminates_the_session() {
    // a hooked five-segment chain whose head is about to re-enter the body
    let mut c = Chain::new(pos(0, 20), Dir::Left);
    c.steer(Dir::Down);
    c.advance_head();
    c.grow();
    c.steer(Dir::Right);
    c.advance_head();
    c.grow();
    c.steer(Dir::Up);
    let mut s = Session::from_parts(c, 1000, Some(pos(100, 100)), rng(1));
    let state = s.tick(1000);
    assert_eq!(state, TickState::Moved);
    assert!(!s.live);
}

#[test]
fn moving_into_the_vacated_tail_cell_is_not_a_collision() {
    // a hooked chain of four: the head circles into the cell the tail is
    // just giving up
    let mut c = Chain::new(pos(0, 20), Dir::Left);
    c.steer(Dir::Down);
    c.advance_head();
    c.grow();
    c.steer(Dir::Right);
    c.advance_head();
    c.propagate_move();
    // chain: (20,0) (0,0) (0,20) (20,20); tail (20,20) is the head's next cell
    assert_eq!(c.positions(), vec![pos(20, 0), pos(0, 0), pos(0, 20), pos(20, 20)]);
    c.steer(Dir::Up);
    let mut s = Session::from_parts(c, 1000, Some(pos(100, 100)), rng(1));
    let state = s.tick(1000);
    assert_eq!(state, TickState::Moved);
    assert!(s.live);
    assert_eq!(s.chain.positions(), vec![pos(20, 20), pos(20, 0), pos(0, 0), pos(0, 20)]);
}

#[test]
fn a_reversal_input_is_dropped() {
    let mut s = Session::new(pos(0, 0), Dir::Up, Some(pos(100, 100)), rng(1));
    s.on_direction_input(Dir::Down);
    assert_eq!(s.chain.dir, Dir::Up);
    let _ = s.tick(SECOND);
    assert_eq!(s.chain.head_position(), pos(0, 20));
    // a sideways input is taken
    s.on_direction_input(Dir::Left);
    assert_eq!(s.chain.dir, Dir::Left);
    let _ = s.tick(SECOND);
    assert_eq!(s.chain.head_position(), pos(-20, 20));
}

#[test]
fn positions_stay_pairwise_distinct_while_the_session_lives() {
    let inputs = [Dir::Up, Dir::Left, Dir::Down, Dir::Right, Dir::Up, Dir::Right];
    let mut s = Session::new(pos(0, 0), Dir::Up, None, rng(99));
    let mut fired = 0;
    let mut i = 0;
    while s.live && fired < 400 {
        s.on_direction_input(inputs[i % inputs.len()]);
        i += 1;
        let state = s.tick(SECOND);
        if state == TickState::Idle {
            continue;
        }
        fired += 1;
        let ps = s.chain.positions();
        if s.live {
            for a in 0..ps.len() {
                for b in (a + 1)..ps.len() {
                    assert_ne!(ps[a], ps[b]);
                }
            }
        }
    }
}

#[test]
fn the_frame_lists_head_body_and_food() {
    let s = Session::new(pos(0, 0), Dir::Up, Some(pos(60, 60)), rng(1));
    let frame = s.frame();
    assert_eq!(
        frame,
        vec![
            (pos(0, 0), CellKind::Head),
            (pos(0, -20), CellKind::Body),
            (pos(0, -40), CellKind::Body),
            (pos(60, 60), CellKind::Food),
        ]
    );
}
