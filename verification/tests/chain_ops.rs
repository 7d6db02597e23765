use greedy_snake::chain::Chain;
use greedy_snake::geom::{Dir, Pos};

fn pos(x: i64, y: i64) -> Pos {
    Pos { x, y }
}

#[test]
fn a_fresh_chain_lies_behind_its_head() {
    let c = Chain::new(pos(0, 0), Dir::Up);
    assert_eq!(c.len(), 3);
    assert_eq!(c.positions(), vec![pos(0, 0), pos(0, -20), pos(0, -40)]);
    assert_eq!(c.head_position(), pos(0, 0));
}

#[test]
fn a_plain_move_keeps_the_length_and_shifts_the_body() {
    let mut c = Chain::new(pos(0, 0), Dir::Up);
    c.advance_head();
    c.propagate_move();
    assert_eq!(c.len(), 3);
    assert_eq!(c.positions(), vec![pos(0, 20), pos(0, 0), pos(0, -20)]);
}

#[test]
fn growth_adds_exactly_one_segment_behind_the_head() {
    let mut c = Chain::new(pos(0, 0), Dir::Up);
    c.advance_head();
    c.grow();
    assert_eq!(c.len(), 4);
    // the tail is untouched: the new segment appears as the new neck
    assert_eq!(c.positions(), vec![pos(0, 20), pos(0, 0), pos(0, -20), pos(0, -40)]);
}

#[test]
fn steering_refuses_only_the_exact_reverse() {
    let mut c = Chain::new(pos(0, 0), Dir::Up);
    c.steer(Dir::Down);
    assert_eq!(c.dir, Dir::Up);
    c.steer(Dir::Left);
    assert_eq!(c.dir, Dir::Left);
    c.steer(Dir::Right);
    assert_eq!(c.dir, Dir::Left);
    c.steer(Dir::Down);
    assert_eq!(c.dir, Dir::Down);
}

#[test]
fn collision_is_a_body_segment_on_the_heads_cell() {
    // hook the chain around so the head comes back to a body cell:
    // grow twice while turning, then move up into the fourth segment
    let mut c = Chain::new(pos(0, 20), Dir::Left);
    assert!(!c.collides());
    c.steer(Dir::Down);
    c.advance_head();
    c.grow();
    assert!(!c.collides());
    c.steer(Dir::Right);
    c.advance_head();
    c.grow();
    assert!(!c.collides());
    assert_eq!(c.positions(), vec![pos(20, 0), pos(0, 0), pos(0, 20), pos(20, 20), pos(40, 20)]);
    c.steer(Dir::Up);
    c.advance_head();
    c.propagate_move();
    assert_eq!(c.head_position(), pos(20, 20));
    assert!(c.collides());
}

#[test]
fn the_chain_follows_its_head_around_a_corner() {
    let mut c = Chain::new(pos(0, 0), Dir::Up);
    c.advance_head();
    c.propagate_move();
    c.steer(Dir::Right);
    c.advance_head();
    c.propagate_move();
    assert_eq!(c.positions(), vec![pos(20, 20), pos(0, 20), pos(0, 0)]);
}
