use output_devices::controller::{ControlError, TimedOutput};
use output_devices::device::OutputDeviceR;
use output_devices::task::{RepeatPolicy, Task};
use output_devices::waveform::{blink_sequence, fade_sequence, Duty, Step};

fn step(num: u64, den: u64, duration_ms: u64) -> Step {
    Step { duty: Duty { num, den }, duration_ms }
}

#[test]
fn write_round_trips_under_both_polarities() {
    for active_high in [true, false] {
        let mut d = OutputDeviceR::new(17);
        d.set_active_high(active_high);
        d.write_state(true);
        assert!(d.value());
        assert_eq!(d.level(), active_high);
        d.write_state(false);
        assert!(!d.value());
        assert_eq!(d.level(), !active_high);
    }
}

#[test]
fn polarity_change_inverts_value_without_touching_level() {
    let mut d = OutputDeviceR::new(4);
    assert!(d.active_high());
    d.on();
    assert!(d.level());
    d.set_active_high(false);
    assert!(d.level());
    assert!(!d.is_active());
    assert_eq!(d.value_to_state(true), false);
    assert_eq!(d.state_to_value(false), true);
    assert_eq!(d.pin(), 4);
}

#[test]
fn toggle_twice_restores_value() {
    let mut c = TimedOutput::new(5);
    let before = c.value();
    c.toggle();
    assert_eq!(c.value(), !before);
    c.toggle();
    assert_eq!(c.value(), before);

    let mut d = OutputDeviceR::new(6);
    d.set_active_high(false);
    d.on();
    d.toggle();
    d.toggle();
    assert!(d.value());
}

#[test]
fn blink_with_zero_count_performs_no_step() {
    let mut c = TimedOutput::new(2);
    c.on();
    c.set_blink_count(0);
    let id = c.blink(250, 750);
    assert!(!c.value());
    for _ in 0..5 {
        assert_eq!(c.tick(id), None);
        assert!(!c.value());
    }
}

#[test]
fn negative_count_is_zero_cycles() {
    let mut c = TimedOutput::new(2);
    c.set_blink_count(-4);
    assert_eq!(c.repeat, RepeatPolicy::Finite(0));
    let id = c.blink(100, 100);
    assert_eq!(c.tick(id), None);
}

#[test]
fn blink_three_times_then_inactive() {
    let mut c = TimedOutput::new(3);
    c.set_blink_count(3);
    let id = c.blink(100, 100);
    let mut seen: Vec<Step> = Vec::new();
    let mut total_ms: u64 = 0;
    while let Some(s) = c.tick(id) {
        assert_eq!(c.value(), s.duty.num > 0);
        total_ms += s.duration_ms;
        seen.push(s);
        assert!(seen.len() <= 6);
    }
    assert_eq!(seen.len(), 6);
    for (i, s) in seen.iter().enumerate() {
        if i % 2 == 0 {
            assert_eq!(*s, step(1, 1, 100));
        } else {
            assert_eq!(*s, step(0, 1, 100));
        }
    }
    assert_eq!(total_ms, 600);
    assert!(!c.value());
    assert_eq!(c.tick(id), None);
}

#[test]
fn unbounded_blink_keeps_going() {
    let mut c = TimedOutput::new(3);
    let id = c.blink(10, 20);
    for i in 0..100 {
        let s = c.tick(id).unwrap();
        assert_eq!(s.duration_ms, if i % 2 == 0 { 10 } else { 20 });
        assert_eq!(c.value(), i % 2 == 0);
    }
}

#[test]
fn fade_without_fades_has_two_steps() {
    let seq = fade_sequence(1000, 1000, 0, 0);
    assert_eq!(seq, vec![step(1, 1, 1000), step(0, 1, 1000)]);
}

#[test]
fn fade_frames_every_forty_ms() {
    let seq = fade_sequence(500, 300, 100, 120);
    assert_eq!(
        seq,
        vec![
            step(0, 100, 40),
            step(40, 100, 40),
            step(1, 1, 500),
            step(120, 120, 40),
            step(80, 120, 40),
            step(40, 120, 40),
            step(0, 1, 300),
        ]
    );
    // a fade shorter than one frame contributes nothing
    assert_eq!(fade_sequence(1, 2, 39, 39).len(), 2);
}

#[test]
fn blink_sequence_is_on_then_off() {
    assert_eq!(blink_sequence(7, 9), vec![step(1, 1, 7), step(0, 1, 9)]);
}

#[test]
fn fade_task_sets_duty() {
    let mut c = TimedOutput::new(12);
    let id = c.fade(200, 200, 80, 0, RepeatPolicy::Finite(1));
    assert_eq!(c.tick(id), Some(step(0, 80, 40)));
    assert_eq!(c.duty(), Duty { num: 0, den: 80 });
    assert_eq!(c.tick(id), Some(step(40, 80, 40)));
    assert_eq!(c.tick(id), Some(step(1, 1, 200)));
    assert_eq!(c.duty(), Duty { num: 1, den: 1 });
    assert_eq!(c.tick(id), Some(step(0, 1, 200)));
    assert_eq!(c.tick(id), None);
}

#[test]
fn on_cancels_running_blink() {
    let mut c = TimedOutput::new(9);
    let id = c.blink(100, 100);
    assert!(c.tick(id).is_some());
    c.off();
    c.on();
    assert!(c.value());
    for _ in 0..10 {
        assert_eq!(c.tick(id), None);
        assert!(c.value());
    }
}

#[test]
fn new_blink_supersedes_old_task() {
    let mut c = TimedOutput::new(9);
    let first = c.blink(100, 100);
    let second = c.blink(30, 40);
    assert_ne!(first, second);
    assert_eq!(c.tick(first), None);
    assert_eq!(c.tick(second), Some(step(1, 1, 30)));
}

#[test]
fn set_value_keeps_task_running() {
    let mut c = TimedOutput::new(18);
    let id = c.fade(100, 100, 0, 0, RepeatPolicy::Infinite);
    c.set_value(Duty { num: 1, den: 4 });
    assert_eq!(c.duty(), Duty { num: 1, den: 4 });
    assert_eq!(c.tick(id), Some(step(1, 1, 100)));
}

#[test]
fn wait_without_task_is_an_error() {
    let mut c = TimedOutput::new(1);
    assert_eq!(c.wait(), Err(ControlError::NoTask));
    c.set_blink_count(1);
    c.blink(1, 1);
    assert_eq!(c.wait(), Ok(()));
    assert_eq!(c.wait(), Err(ControlError::NoTask));
}

#[test]
fn task_counts_down_cycles() {
    let mut t = Task::new(vec![step(1, 1, 5)], RepeatPolicy::Finite(2));
    assert_eq!(t.next(), Some(step(1, 1, 5)));
    assert_eq!(t.remaining, RepeatPolicy::Finite(1));
    assert_eq!(t.next(), Some(step(1, 1, 5)));
    assert_eq!(t.next(), None);
    assert_eq!(t.remaining, RepeatPolicy::Finite(0));
}

#[test]
fn fade_repeat_is_for_that_task_only() {
    let mut c = TimedOutput::new(12);
    c.set_blink_count(5);
    let id = c.fade(10, 10, 0, 0, RepeatPolicy::Finite(1));
    assert_eq!(c.repeat, RepeatPolicy::Finite(5));
    assert!(c.tick(id).is_some());
    assert!(c.tick(id).is_some());
    assert_eq!(c.tick(id), None);
}

#[test]
fn cancelled_fade_leaves_output_off() {
    let mut c = TimedOutput::new(13);
    let id = c.fade(500, 500, 0, 0, RepeatPolicy::Finite(1));
    assert_eq!(c.tick(id), Some(step(1, 1, 500)));
    assert_eq!(c.duty(), Duty { num: 1, den: 1 });
    c.off();
    assert_eq!(c.duty(), Duty { num: 0, den: 1 });
    assert!(!c.value());
    assert_eq!(c.tick(id), None);
    assert_eq!(c.duty(), Duty { num: 0, den: 1 });
    c.on();
    assert_eq!(c.duty(), Duty { num: 1, den: 1 });
}

#[test]
fn new_task_starts_from_zero_duty() {
    let mut c = TimedOutput::new(14);
    c.set_value(Duty { num: 3, den: 4 });
    c.blink(5, 5);
    assert_eq!(c.duty(), Duty { num: 0, den: 1 });
    assert!(!c.value());
}

#[test]
fn repeat_policy_from_count() {
    assert_eq!(RepeatPolicy::from_count(-1), RepeatPolicy::Finite(0));
    assert_eq!(RepeatPolicy::from_count(7), RepeatPolicy::Finite(7));
}
