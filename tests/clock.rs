use smeltery::tick::Tick;

#[test]
fn clock_starts_at_zero_and_advances() {
    let mut tick = Tick::start();
    assert_eq!(tick.cur(), 0);
    assert!(!tick.logging());
    tick.advance();
    tick.advance_by(0);
    assert_eq!(tick.cur(), 1);
    tick.advance_by(9);
    assert_eq!(tick.cur(), 10);
    tick.advance_to_tick(4);
    assert_eq!(tick.cur(), 10);
    tick.advance_to_tick(15);
    assert_eq!(tick.cur(), 15);
    tick.log(true);
    assert!(tick.logging());
    assert_eq!(tick.cur(), 15);
}

#[test]
fn advance_until_true_at_start_does_not_move() {
    let mut tick = Tick::start();
    tick.advance_by(7);
    assert!(tick.advance_until(|_| true, 100));
    assert_eq!(tick.cur(), 7);
    assert!(tick.advance_until(|t| t >= 3, 0));
    assert_eq!(tick.cur(), 7);
}

#[test]
fn advance_until_stops_at_first_tick_that_holds() {
    let mut tick = Tick::start();
    assert!(tick.advance_until(|t| t >= 12, 100));
    assert_eq!(tick.cur(), 12);
}

#[test]
fn advance_until_reports_an_exhausted_budget() {
    let mut tick = Tick::start();
    assert!(!tick.advance_until(|t| t >= 50, 20));
    assert_eq!(tick.cur(), 20);
    assert!(tick.advance_until(|t| t >= 50, 30));
    assert_eq!(tick.cur(), 50);
}
