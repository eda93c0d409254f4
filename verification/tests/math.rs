use vesting_vault::math::{claimable, vested_amount};

const START: i64 = 1_000;
const END: i64 = 2_000;
const TOTAL: u64 = 1_000_000;

#[test]
fn nothing_before_cliff() {
    let cliff = START + 100;
    assert_eq!(vested_amount(START, START, cliff, END, TOTAL), 0);
    assert_eq!(vested_amount(cliff - 1, START, cliff, END, TOTAL), 0);
}

#[test]
fn at_cliff_catches_up_to_linear_from_start() {
    let cliff = START + 100;
    // 100 / 1000 of the grant unlocks the instant the cliff passes.
    assert_eq!(vested_amount(cliff, START, cliff, END, TOTAL), 100_000);
}

#[test]
fn midpoint_is_half_when_cliff_equals_start() {
    assert_eq!(
        vested_amount(START + 500, START, START, END, TOTAL),
        500_000
    );
}

#[test]
fn fully_vested_at_and_after_end() {
    assert_eq!(vested_amount(END, START, START, END, TOTAL), TOTAL);
    assert_eq!(vested_amount(END + 10_000, START, START, END, TOTAL), TOTAL);
}

#[test]
fn claimable_subtracts_already_claimed() {
    assert_eq!(claimable(500, 200), 300);
    assert_eq!(claimable(500, 500), 0);
    assert_eq!(claimable(200, 500), 0);
}

#[test]
fn overflow_scale_total_does_not_wrap() {
    let total = u64::MAX;
    let now = START + 500;
    let vested = vested_amount(now, START, START, END, total);
    // Exactly half of u64::MAX, floored: (u64::MAX * 500) / 1000
    let expected = ((u128::from(total) * 500) / 1000) as u64;
    assert_eq!(vested, expected);
    assert!(vested > 0);
    assert!(vested < total);
}

#[test]
fn extreme_i64_schedule_does_not_saturate_duration() {
    let start = i64::MIN;
    let end = i64::MAX;
    let now = 0;
    let vested = vested_amount(now, start, start, end, TOTAL);
    let elapsed = u128::try_from(i128::from(now) - i128::from(start)).unwrap();
    let duration = u128::try_from(i128::from(end) - i128::from(start)).unwrap();
    let expected = (u128::from(TOTAL) * elapsed / duration) as u64;
    assert_eq!(vested, expected);
    // i64 saturating subtraction would collapse duration to i64::MAX and
    // report the grant as fully vested.
    assert_ne!(vested, TOTAL);
}

#[test]
fn vesting_never_decreases_over_time() {
    let cliff = START + 100;
    let mut previous = 0u64;
    let mut now = START - 50;
    while now <= END + 50 {
        let vested = vested_amount(now, START, cliff, END, TOTAL);
        assert!(vested >= previous);
        assert!(vested <= TOTAL);
        previous = vested;
        now += 7;
    }
    assert_eq!(previous, TOTAL);
}

#[test]
fn vested_just_before_end_is_below_total() {
    assert_eq!(vested_amount(END - 1, START, START, END, TOTAL), 999_000);
}

#[test]
fn odd_schedules_follow_the_same_rule() {
    // A cliff before the start: nothing until the start itself.
    assert_eq!(vested_amount(START - 10, START, START - 100, END, TOTAL), 0);
    // A cliff at or after the end: nothing, then everything.
    assert_eq!(vested_amount(END + 5, START, END + 10, END, TOTAL), 0);
    assert_eq!(vested_amount(END + 10, START, END + 10, END, TOTAL), TOTAL);
    // An end at or before the start: everything once the cliff has passed.
    assert_eq!(vested_amount(3, 10, 0, 5, 100), 100);
    assert_eq!(vested_amount(-1, 10, 0, 5, 100), 0);
    assert_eq!(vested_amount(0, 10, 0, 10, 100), 100);
    // An empty grant never unlocks anything.
    assert_eq!(vested_amount(START + 500, START, START, END, 0), 0);
}

#[test]
fn share_rounds_down() {
    assert_eq!(vested_amount(START + 1, START, START, START + 3, 10), 3);
    assert_eq!(vested_amount(START + 2, START, START, START + 3, 10), 6);
}
