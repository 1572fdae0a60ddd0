use ib_async_dx::waiting::{limit, unlimited_at_zero, LoopAction, LoopEnd, LoopItem, LoopUntil};

#[test]
fn a_loop_looks_first_then_waits_until_its_value() {
    let mut l = LoopUntil::new(100, None);
    assert_eq!(l.end, LoopEnd::Unbounded);
    assert_eq!(l.next_action(100), LoopAction::Look);
    assert_eq!(l.looked::<i32>(None, 100), LoopItem::Pending);
    assert_eq!(l.next_action(150), LoopAction::Wait(None));
    assert_eq!(l.next_action(150), LoopAction::Look);
    assert_eq!(l.looked(Some(7), 200), LoopItem::Done(7));
    assert_eq!(l.next_action(300), LoopAction::End);
}

#[test]
fn a_timeout_bounds_each_wait_and_ends_the_loop() {
    let mut l = LoopUntil::new(1_000, Some(500));
    assert_eq!(l.end, LoopEnd::At(1_500));
    assert_eq!(l.next_action(1_000), LoopAction::Look);
    assert_eq!(l.looked::<()>(None, 1_000), LoopItem::Pending);
    assert_eq!(l.next_action(1_200), LoopAction::Wait(Some(300)));
    assert_eq!(l.looked::<()>(None, 1_500), LoopItem::Pending);
    // At the end, no wait comes before the look that times out.
    assert_eq!(l.next_action(1_600), LoopAction::Look);
    assert_eq!(l.looked::<()>(None, 1_600), LoopItem::TimedOut);
    assert_eq!(l.next_action(1_700), LoopAction::End);
}

#[test]
fn a_zero_timeout_is_none_and_one_past_the_clock_never_passes() {
    assert_eq!(LoopUntil::new(5, Some(0)).end, LoopEnd::Unbounded);
    let mut l = LoopUntil::new(u64::MAX - 1, Some(10));
    assert_eq!(l.end, LoopEnd::Never);
    assert_eq!(l.looked::<()>(None, u64::MAX), LoopItem::Pending);
    assert_eq!(l.next_action(u64::MAX), LoopAction::Wait(Some(u64::MAX)));
}

#[test]
fn a_failed_wait_ends_the_loop() {
    let mut l = LoopUntil::new(0, None);
    assert_eq!(l.looked::<()>(None, 0), LoopItem::Pending);
    assert_eq!(l.next_action(1), LoopAction::Wait(None));
    l.wait_failed();
    assert_eq!(l.next_action(2), LoopAction::End);
}

#[test]
fn timeouts_read_zero_as_no_limit() {
    assert_eq!(unlimited_at_zero(None), None);
    assert_eq!(unlimited_at_zero(Some(0)), None);
    assert_eq!(unlimited_at_zero(Some(3)), Some(3));
    assert_eq!(limit(None, 15), Some(15));
    assert_eq!(limit(Some(0), 15), None);
    assert_eq!(limit(Some(2), 15), Some(2));
}
