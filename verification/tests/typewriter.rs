use bevy_dialogue_system::typewriter::{TypeWriter, DEFAULT_SPEED, SPEED_FULL, TIME_FULL};

#[test]
fn new_typewriter_is_active_at_the_start() {
    let typewriter = TypeWriter::new();
    assert!(typewriter.is_active());
    assert_eq!(typewriter.current_time(), 0);
    assert_eq!(typewriter.speed(), DEFAULT_SPEED);
    assert_eq!(DEFAULT_SPEED, 500_000);
}

#[test]
fn default_typewriter_is_inactive() {
    let typewriter = TypeWriter::default();
    assert!(!typewriter.is_active());
    assert_eq!(typewriter.current_time(), 0);
    assert_eq!(typewriter.speed(), 500_000);
}

#[test]
fn activate_and_deactivate_switch_only_the_flag() {
    let mut typewriter = TypeWriter::default().with_time(7).with_speed(9);
    typewriter.activate();
    assert!(typewriter.is_active());
    assert_eq!(typewriter.current_time(), 7);
    assert_eq!(typewriter.speed(), 9);
    typewriter.deactivate();
    assert!(!typewriter.is_active());
    assert_eq!(typewriter.current_time(), 7);
    assert_eq!(typewriter.speed(), 9);
}

#[test]
fn advance_adds_amount_times_speed() {
    // A tenth of a second at half a sentence per second: a twentieth.
    let mut typewriter = TypeWriter::new();
    assert_eq!(typewriter.current_time(), 0);
    typewriter.advance(100_000);
    assert_eq!(typewriter.current_time(), 50_000_000_000);
    assert_eq!(typewriter.current_time(), TIME_FULL / 20);
}

#[test]
fn advance_stops_at_the_end() {
    let mut typewriter = TypeWriter::new().with_speed(SPEED_FULL);
    typewriter.advance(999_999);
    assert_eq!(typewriter.current_time(), 999_999_000_000);
    typewriter.advance(2);
    assert_eq!(typewriter.current_time(), TIME_FULL);
    typewriter.advance(u64::MAX);
    assert_eq!(typewriter.current_time(), TIME_FULL);
}

#[test]
fn advance_by_the_longest_frame_does_not_overflow() {
    let mut typewriter = TypeWriter::new().with_speed(SPEED_FULL).with_time(TIME_FULL - 1);
    typewriter.advance(u64::MAX);
    assert_eq!(typewriter.current_time(), TIME_FULL);
}

#[test]
fn advance_at_speed_zero_stands_still() {
    let mut typewriter = TypeWriter::new().with_speed(0).with_time(5);
    typewriter.advance(u64::MAX);
    assert_eq!(typewriter.current_time(), 5);
}

#[test]
fn frames_that_add_up_to_a_whole_reveal_reach_the_end() {
    // At 0.3 sentences per second a reveal takes 3.333334 seconds at most.
    let speed = 300_000;
    for cut in [1_u64, 7, 1_000, 333_333, 3_333_334] {
        let mut typewriter = TypeWriter::new().with_speed(speed);
        let mut passed: u64 = 0;
        while passed < 3_333_334 {
            let amount = cut.min(3_333_334 - passed);
            typewriter.advance(amount);
            passed += amount;
            assert!(typewriter.current_time() <= TIME_FULL);
            if cut == 1 && passed > 1_000 {
                // One frame at a time is slow: take the rest in one.
                typewriter.advance(3_333_334 - passed);
                passed = 3_333_334;
            }
        }
        assert_eq!(typewriter.current_time(), TIME_FULL);
    }
}

#[test]
fn frames_just_short_of_a_whole_reveal_do_not_reach_the_end() {
    let mut typewriter = TypeWriter::new().with_speed(300_000);
    typewriter.advance(3_333_333);
    assert_eq!(typewriter.current_time(), 999_999_900_000);
}

#[test]
fn finish_then_advance_stays_at_the_end() {
    let mut typewriter = TypeWriter::new();
    typewriter.finish();
    assert_eq!(typewriter.current_time(), TIME_FULL);
    typewriter.advance(0);
    assert_eq!(typewriter.current_time(), TIME_FULL);
    typewriter.advance(123_456);
    assert_eq!(typewriter.current_time(), TIME_FULL);
    typewriter.reset();
    assert_eq!(typewriter.current_time(), 0);
    typewriter.advance(2);
    assert_eq!(typewriter.current_time(), 1_000_000);
}

#[test]
fn with_time_sets_the_time() {
    let typewriter = TypeWriter::new().with_time(TIME_FULL / 2);
    assert_eq!(typewriter.current_time(), 500_000_000_000);
}

#[test]
fn with_time_and_set_time_clamp() {
    let typewriter = TypeWriter::new().with_time(TIME_FULL + 1);
    assert_eq!(typewriter.current_time(), TIME_FULL);
    let mut typewriter = TypeWriter::new();
    typewriter.set_time(u64::MAX);
    assert_eq!(typewriter.current_time(), TIME_FULL);
    typewriter.set_time(3);
    assert_eq!(typewriter.current_time(), 3);
}

#[test]
fn with_speed_and_set_speed_clamp() {
    let typewriter = TypeWriter::new().with_speed(700_000);
    assert_eq!(typewriter.speed(), 700_000);
    let typewriter = TypeWriter::new().with_speed(SPEED_FULL + 1);
    assert_eq!(typewriter.speed(), SPEED_FULL);
    let mut typewriter = TypeWriter::new();
    typewriter.set_speed(u32::MAX);
    assert_eq!(typewriter.speed(), 1_000_000);
    typewriter.set_speed(0);
    assert_eq!(typewriter.speed(), 0);
}
