use auth_core::visits::Counter;
use auth_core::visits::COUNTER_KEY;
use auth_core::visits::COUNTER_STEP;

#[test]
fn the_counter_lies_under_its_key_and_moves_by_four() {
    assert_eq!(COUNTER_KEY, "counter");
    assert_eq!(COUNTER_STEP, 4);
    assert_eq!(Counter::default(), Counter(0));
}

#[test]
fn the_first_request_sees_zero() {
    let (seen, next) = Counter::advance(None);
    assert_eq!(seen, Counter(0));
    assert_eq!(next, 4);
}

#[test]
fn a_request_sees_the_stored_counter_and_leaves_it_larger() {
    let (seen, next) = Counter::advance(Some(4));
    assert_eq!(seen, Counter(4));
    assert_eq!(next, 8);
    let (seen, next) = Counter::advance(Some(next));
    assert_eq!(seen, Counter(8));
    assert_eq!(next, 12);
    let (seen, next) = Counter::advance(Some(usize::MAX - 4));
    assert_eq!(seen, Counter(usize::MAX - 4));
    assert_eq!(next, usize::MAX);
}

#[test]
fn the_step_must_fit() {
    assert!(Counter::can_advance(None));
    assert!(Counter::can_advance(Some(0)));
    assert!(Counter::can_advance(Some(usize::MAX - 4)));
    assert!(!Counter::can_advance(Some(usize::MAX - 3)));
    assert!(!Counter::can_advance(Some(usize::MAX)));
}

#[test]
fn the_counter_is_shown_by_its_low_bits() {
    assert_eq!(Counter(0).shown(), 0);
    assert_eq!(Counter(12).shown(), 12);
    assert_eq!(Counter(i32::MAX as usize).shown(), i32::MAX);
    assert_eq!(Counter(i32::MAX as usize + 1).shown(), i32::MIN);
    assert_eq!(Counter(u32::MAX as usize).shown(), -1);
}
