use counter::counter::{Args, Counter, Vector2, ONE_BITS, TWO_BITS};

fn made(init: u32, by: u32) -> Counter {
    Counter::new(Args { init, by })
}

#[test]
fn new_takes_value_and_step() {
    let c = made(10, 3);
    assert_eq!(c.get(), 10);
    assert_eq!(c.get_by(), 3);
}

#[test]
fn new_takes_extreme_value_and_step() {
    let c = made(u32::MAX, u32::MAX);
    assert_eq!(c.get(), u32::MAX);
    assert_eq!(c.get_by(), u32::MAX);
    let z = made(0, 0);
    assert_eq!(z.get(), 0);
    assert_eq!(z.get_by(), 0);
}

#[test]
fn new_holds_the_three_default_positions() {
    let c = made(0, 1);
    let positions = c.get_positions();
    assert_eq!(positions.len(), 3);
    assert_eq!(positions[0], Vector2 { x: 0, y: 0 });
    assert_eq!(positions[1], Vector2 { x: ONE_BITS, y: ONE_BITS });
    assert_eq!(positions[2], Vector2 { x: TWO_BITS, y: TWO_BITS });
}

#[test]
fn default_positions_are_zero_one_and_two_as_numbers() {
    let c = made(0, 1);
    let numbers: Vec<(f32, f32)> = c
        .get_positions()
        .iter()
        .map(|p| (f32::from_bits(p.x), f32::from_bits(p.y)))
        .collect();
    assert_eq!(numbers, vec![(0.0, 0.0), (1.0, 1.0), (2.0, 2.0)]);
}

#[test]
fn bit_patterns_of_one_and_two() {
    assert_eq!(ONE_BITS, 1.0f32.to_bits());
    assert_eq!(TWO_BITS, 2.0f32.to_bits());
    assert_eq!(0u32, 0.0f32.to_bits());
}

#[test]
fn incr_adds_the_step() {
    let mut c = made(10, 3);
    assert_eq!(c.incr(), 13);
    assert_eq!(c.get(), 13);
    assert_eq!(c.incr(), 16);
    assert_eq!(c.get_by(), 3);
}

#[test]
fn decr_subtracts_the_step() {
    let mut c = made(10, 3);
    assert_eq!(c.decr(), 7);
    assert_eq!(c.get(), 7);
    assert_eq!(c.decr(), 4);
    assert_eq!(c.get_by(), 3);
}

#[test]
fn incr_wraps_past_the_top() {
    let mut c = made(u32::MAX, 1);
    assert_eq!(c.incr(), 0);
    let mut d = made(u32::MAX - 1, 5);
    assert_eq!(d.incr(), 3);
    let mut e = made(u32::MAX, u32::MAX);
    assert_eq!(e.incr(), u32::MAX - 1);
}

#[test]
fn decr_wraps_past_the_bottom() {
    let mut c = made(0, 1);
    assert_eq!(c.decr(), u32::MAX);
    let mut d = made(2, 5);
    assert_eq!(d.decr(), u32::MAX - 2);
    let mut e = made(0, u32::MAX);
    assert_eq!(e.decr(), 1);
}

#[test]
fn a_step_of_zero_moves_nothing() {
    let mut c = made(42, 0);
    assert_eq!(c.incr(), 42);
    assert_eq!(c.decr(), 42);
}

#[test]
fn incr_by_adds_the_amount_and_not_the_step() {
    let mut c = made(10, 3);
    assert_eq!(c.incr_by(7), 17);
    assert_eq!(c.incr_by(0), 17);
    assert_eq!(c.get(), 17);
    assert_eq!(c.get_by(), 3);
}

#[test]
fn decr_by_subtracts_the_amount_and_not_the_step() {
    let mut c = made(13, 3);
    assert_eq!(c.decr_by(7), 6);
    assert_eq!(c.decr_by(0), 6);
    assert_eq!(c.get(), 6);
    assert_eq!(c.get_by(), 3);
}

#[test]
fn incr_by_wraps_past_the_top() {
    let mut c = made(u32::MAX, 3);
    assert_eq!(c.incr_by(1), 0);
    assert_eq!(c.incr_by(u32::MAX), u32::MAX);
    assert_eq!(c.incr_by(u32::MAX), u32::MAX - 1);
}

#[test]
fn decr_by_wraps_past_the_bottom() {
    let mut c = made(6, 3);
    assert_eq!(c.decr_by(7), u32::MAX);
    assert_eq!(c.decr_by(u32::MAX), 0);
    assert_eq!(c.decr_by(u32::MAX), 1);
}

#[test]
fn incr_by_many_adds_every_amount() {
    let mut c = made(6, 3);
    assert_eq!(c.incr_by_many(&[1, 2, 3]), 12);
    assert_eq!(c.get(), 12);
    assert_eq!(c.get_by(), 3);
}

#[test]
fn decr_by_many_subtracts_every_amount() {
    let mut c = made(12, 3);
    assert_eq!(c.decr_by_many(&[1, 2, 3]), 6);
    assert_eq!(c.get(), 6);
    assert_eq!(c.get_by(), 3);
}

#[test]
fn many_with_no_amounts_returns_the_value_as_it_is() {
    let mut c = made(9, 3);
    assert_eq!(c.incr_by_many(&[]), 9);
    assert_eq!(c.decr_by_many(&[]), 9);
    assert_eq!(c.get(), 9);
}

#[test]
fn incr_by_many_wraps_as_often_as_it_takes() {
    let mut c = made(5, 1);
    assert_eq!(c.incr_by_many(&[u32::MAX, u32::MAX, u32::MAX]), 2);
    let mut d = made(u32::MAX, 1);
    assert_eq!(d.incr_by_many(&[1, 2]), 2);
}

#[test]
fn decr_by_many_wraps_as_often_as_it_takes() {
    let mut c = made(2, 1);
    assert_eq!(c.decr_by_many(&[u32::MAX, u32::MAX, u32::MAX]), 5);
    let mut d = made(0, 1);
    assert_eq!(d.decr_by_many(&[1, 2]), u32::MAX - 2);
}

#[test]
fn incr_by_many_is_incr_by_on_each_amount_in_turn() {
    let amounts = [4_000_000_000u32, 500_000_000, 7, u32::MAX, 0, 12];
    let mut at_once = made(123, 9);
    let mut in_turn = made(123, 9);
    let mut last = in_turn.get();
    for a in amounts {
        last = in_turn.incr_by(a);
    }
    assert_eq!(at_once.incr_by_many(&amounts), last);
    assert_eq!(at_once.get(), in_turn.get());
}

#[test]
fn decr_by_many_is_decr_by_on_each_amount_in_turn() {
    let amounts = [4_000_000_000u32, 500_000_000, 7, u32::MAX, 0, 12];
    let mut at_once = made(123, 9);
    let mut in_turn = made(123, 9);
    let mut last = in_turn.get();
    for a in amounts {
        last = in_turn.decr_by(a);
    }
    assert_eq!(at_once.decr_by_many(&amounts), last);
    assert_eq!(at_once.get(), in_turn.get());
}

#[test]
fn positions_stay_as_they_are_while_the_value_moves() {
    let mut c = made(1, 2);
    let before = c.get_positions().clone();
    c.incr();
    c.decr_by(100);
    c.incr_by_many(&[u32::MAX, 3]);
    c.decr_by_many(&[8, 9]);
    c.decr();
    c.incr_by(77);
    assert_eq!(c.get_positions(), &before);
    assert_eq!(c.get_positions().len(), 3);
}

#[test]
fn a_clone_is_a_counter_of_its_own() {
    let mut c = made(10, 3);
    let copy = c.clone();
    c.incr();
    assert_eq!(c.get(), 13);
    assert_eq!(copy.get(), 10);
    assert_eq!(copy.get_by(), 3);
    assert_eq!(copy.get_positions(), c.get_positions());
}
