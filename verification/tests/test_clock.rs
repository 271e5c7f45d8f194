use std::time::Duration;
use std::time::Instant;
use video_player::clock::TimeData;

#[test]
fn new_clock_plays_from_zero() {
    let clock = TimeData::new();
    assert_eq!(clock.start_time, 0);
    assert_eq!(clock.paused, None);
    assert!(!clock.looping);
    assert_eq!(clock.duration, 0);
    assert!(!clock.is_paused());
    assert_eq!(clock.position_at(0), 0);
    assert_eq!(clock.position_at(1234), 1234);
}

#[test]
fn pause_of_two_seconds_does_not_move_the_position() {
    let mut clock = TimeData::new();
    assert_eq!(clock.position_at(3000), 3000);
    clock.pause_at(3000);
    assert!(clock.is_paused());
    assert_eq!(clock.position_at(3000), 3000);
    assert_eq!(clock.position_at(4000), 3000);
    assert_eq!(clock.position_at(5000), 3000);
    clock.play_at(5000);
    assert!(!clock.is_paused());
    assert_eq!(clock.start_time, 2000);
    assert_eq!(clock.position_at(5000), 3000);
    assert_eq!(clock.position_at(5250), 3250);
}

#[test]
fn second_pause_keeps_the_first_instant() {
    let mut clock = TimeData::new();
    clock.pause_at(100);
    clock.pause_at(900);
    assert_eq!(clock.paused, Some(100));
    assert_eq!(clock.position_at(5000), 100);
}

#[test]
fn play_on_a_playing_clock_changes_nothing() {
    let mut clock = TimeData::new();
    clock.play_at(700);
    assert_eq!(clock.start_time, 0);
    assert_eq!(clock.paused, None);
    assert_eq!(clock.position_at(700), 700);
}

#[test]
fn position_never_goes_back_over_pauses_and_resumes() {
    let mut clock = TimeData::new();
    let mut last = clock.position_at(0);
    let calls = [(10_u64, true), (40, false), (40, true), (90, true), (95, false), (200, false), (300, true)];
    for (at, pause) in calls.iter() {
        if *pause {
            clock.pause_at(*at);
        } else {
            clock.play_at(*at);
        }
        let position = clock.position_at(*at);
        assert!(position >= last);
        last = position;
    }
    // played: 0..10, then 95..300
    assert_eq!(last, 10 + 205);
    assert_eq!(clock.position_at(100_000), 215);
}

#[test]
fn looping_position_wraps_at_the_duration() {
    let mut clock = TimeData::new();
    clock.set_duration(10_000);
    assert_eq!(clock.position_at(25_500), 25_500);
    clock.set_looping(true);
    assert_eq!(clock.position_at(25_500), 5_500);
    assert_eq!(clock.position_at(10_000), 0);
    assert_eq!(clock.position_at(9_999), 9_999);
    for now in [0_u64, 1, 9_999, 10_000, 10_001, 123_456_789].iter() {
        let position = clock.position_at(*now);
        assert!(0 <= position && position < 10_000);
    }
}

#[test]
fn looping_without_a_known_duration_does_not_wrap() {
    let mut clock = TimeData::new();
    clock.set_looping(true);
    assert_eq!(clock.position_at(777), 777);
    clock.set_duration(-5);
    assert_eq!(clock.position_at(777), 777);
}

#[test]
fn position_before_the_start_is_zero() {
    let mut clock = TimeData::new();
    clock.pause_at(1_000);
    clock.play_at(4_000);
    assert_eq!(clock.start_time, 3_000);
    assert_eq!(clock.position_at(2_000), 0);
    assert_eq!(clock.position_at(3_000), 0);
    assert_eq!(clock.position_at(3_001), 1);
}

#[test]
fn position_stops_at_the_largest_value() {
    let clock = TimeData::new();
    assert_eq!(clock.position_at(u64::MAX), i64::MAX);
}

#[test]
fn resume_with_an_earlier_instant_moves_nothing() {
    let mut clock = TimeData::new();
    clock.pause_at(500);
    clock.play_at(400);
    assert_eq!(clock.start_time, 0);
    assert_eq!(clock.paused, None);
}

#[test]
fn start_stops_at_the_largest_instant() {
    let mut clock = TimeData::new();
    clock.start_time = u64::MAX - 5;
    clock.pause_at(0);
    clock.play_at(100);
    assert_eq!(clock.start_time, u64::MAX);
}

#[test]
fn machine_clock_moves_forward() {
    let clock = TimeData::new();
    let first = clock.now();
    let begun = Instant::now();
    while begun.elapsed() < Duration::from_millis(30) {}
    let second = clock.now();
    assert!(second >= first + 29);
    assert!(second < 15_000);
}

#[test]
fn pause_and_play_read_the_machine_clock() {
    let mut clock = TimeData::new();
    let begun = Instant::now();
    while begun.elapsed() < Duration::from_millis(20) {}
    clock.pause();
    let paused = clock.paused.expect("the clock is paused");
    assert!(paused >= 19);
    let position = clock.position();
    assert_eq!(position, paused as i64);
    while begun.elapsed() < Duration::from_millis(50) {}
    assert_eq!(clock.position(), position);
    let before_play = clock.now();
    clock.play();
    assert_eq!(clock.paused, None);
    assert!(clock.start_time >= before_play - paused);
    assert!(clock.start_time > 0);
    let after = clock.position();
    assert!(after >= position);
    assert!(after < position + 10_000);
}
