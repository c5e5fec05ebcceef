use flicker_core::color::Rgba;
use flicker_core::components::{Flickered, RepeatingFlicker, RepeatingFlickerBuilder};
use flicker_core::config::{FlickerOverlapAction, FlickerPluginConfig};
use flicker_core::events::FlickerStartEvent;
use flicker_core::timer::{FlickerTimer, TimerMode};

#[test]
fn once_timer_counts_down() {
    let mut t = FlickerTimer::new(1000, TimerMode::Once);
    assert!(!t.finished());
    t.tick(400);
    assert!(!t.finished());
    assert!(!t.just_finished());
    assert_eq!(t.elapsed, 400);
    t.tick(600);
    assert!(t.finished());
    assert!(t.just_finished());
    assert_eq!(t.elapsed, 1000);
    t.tick(100);
    assert!(t.finished());
    assert!(!t.just_finished());
    assert_eq!(t.elapsed, 1000);
}

#[test]
fn zero_duration_once_timer_is_immediately_finished() {
    let mut t = FlickerTimer::new(0, TimerMode::Once);
    assert!(t.finished());
    t.tick(0);
    assert!(t.finished());
    assert!(!t.just_finished());
}

#[test]
fn repeating_timer_wraps_around() {
    let mut t = FlickerTimer::new(500, TimerMode::Repeating);
    t.tick(300);
    assert!(!t.just_finished());
    assert_eq!(t.elapsed, 300);
    t.tick(300);
    assert!(t.just_finished());
    assert_eq!(t.elapsed, 100);
    t.tick(900);
    assert!(t.just_finished());
    assert_eq!(t.elapsed, 0);
    t.tick(100);
    assert!(!t.just_finished());
    assert_eq!(t.elapsed, 100);
}

#[test]
fn zero_duration_repeating_timer_fires_every_tick() {
    let mut t = FlickerTimer::new(0, TimerMode::Repeating);
    t.tick(123);
    assert!(t.just_finished());
    assert_eq!(t.elapsed, 0);
    t.tick(0);
    assert!(t.just_finished());
}

#[test]
fn elapsed_time_saturates_at_the_largest_count() {
    let mut t = FlickerTimer::new(500, TimerMode::Repeating);
    t.tick(300);
    t.tick(u64::MAX);
    // The accumulated time stops at u64::MAX instead of wrapping, so the
    // timer still completes and keeps a well-formed remainder.
    assert!(t.just_finished());
    assert_eq!(t.elapsed, u64::MAX % 500);
    let mut once = FlickerTimer::new(u64::MAX, TimerMode::Once);
    once.tick(u64::MAX);
    assert!(once.finished());
}

#[test]
fn flickered_default_is_a_tenth_of_a_second() {
    let f = Flickered::default();
    assert_eq!(f.0.duration, 100_000);
    assert_eq!(f.0.elapsed, 0);
    assert_eq!(f.0.mode, TimerMode::Once);
    let g = Flickered::with_micros(42);
    assert_eq!(g.0.duration, 42);
    assert_eq!(g.0.mode, TimerMode::Once);
}

#[test]
fn flicker_event_builder_defaults() {
    let ev = FlickerStartEvent::builder(7).build();
    assert_eq!(ev.entity, 7);
    assert_eq!(ev.micros, 100_000);
    assert_eq!(ev.color, Rgba { red: 255, green: 255, blue: 255, alpha: 255 });
}

#[test]
fn flicker_event_builder_setters() {
    let blue = Rgba { red: 0, green: 0, blue: 255, alpha: 51 };
    let ev = FlickerStartEvent::builder(9).with_micros(250_000).with_color(blue).build();
    assert_eq!(ev.entity, 9);
    assert_eq!(ev.micros, 250_000);
    assert_eq!(ev.color, blue);
}

#[test]
fn repeating_flicker_builder_defaults() {
    let rf = RepeatingFlicker::default();
    assert_eq!(rf.flicker_time_length, 100_000);
    assert_eq!(rf.time_between_flickers, 500_000);
    assert_eq!(rf.time_between_pulses, 500_000);
    assert_eq!(rf.color, Rgba { red: 255, green: 255, blue: 255, alpha: 255 });
    assert_eq!(rf.pulse_count, 1);
    assert_eq!(rf.count, None);
    assert_eq!(rf.curr_pulse_count, 0);
    // The intra-pulse period covers the gap plus the flicker itself.
    assert_eq!(rf.timer.duration, 600_000);
    assert_eq!(rf.timer.mode, TimerMode::Repeating);
    assert_eq!(rf.pulse_timer.duration, 500_000);
    assert_eq!(rf.pulse_timer.mode, TimerMode::Repeating);
}

#[test]
fn repeating_flicker_builder_setters() {
    let red = Rgba { red: 255, green: 0, blue: 0, alpha: 255 };
    let rf = RepeatingFlickerBuilder::new()
        .with_flicker_time_length(50_000)
        .with_time_between_flickers(150_000)
        .with_time_between_pulses(400_000)
        .with_color(red)
        .with_pulse_count(4)
        .with_count(2)
        .build();
    assert_eq!(rf.flicker_time_length, 50_000);
    assert_eq!(rf.time_between_flickers, 150_000);
    assert_eq!(rf.time_between_pulses, 400_000);
    assert_eq!(rf.color, red);
    assert_eq!(rf.pulse_count, 4);
    assert_eq!(rf.count, Some(2));
    assert_eq!(rf.timer.duration, 200_000);
    assert_eq!(rf.pulse_timer.duration, 400_000);
}

#[test]
fn generate_start_event_carries_schedule_parameters() {
    let teal = Rgba { red: 0, green: 128, blue: 128, alpha: 200 };
    let rf = RepeatingFlicker::builder()
        .with_flicker_time_length(75_000)
        .with_color(teal)
        .build();
    let ev = rf.generate_start_event(11);
    assert_eq!(ev.entity, 11);
    assert_eq!(ev.micros, 75_000);
    assert_eq!(ev.color, teal);
}

#[test]
fn default_overlap_action_is_overwrite() {
    let config = FlickerPluginConfig::default();
    assert_eq!(config.overlap_action, FlickerOverlapAction::Overwrite);
    assert!(!config.ignore_overlap());
    let ignoring = FlickerPluginConfig { overlap_action: FlickerOverlapAction::Ignore };
    assert!(ignoring.ignore_overlap());
}
