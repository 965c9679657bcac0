use stopwatch::dispatch::System;
use stopwatch::model::Event;
use stopwatch::priority::{Task, SharedItem, task_priority, ceiling};
use stopwatch::section::{Core, enter_section, exit_section};
use stopwatch::timer::{MeasurementTimer, MEASUREMENT_PERIOD_US, ticks_to_micros};

#[test]
fn new_system_is_idle() {
    let s = System::new();
    assert!(!s.measuring());
    assert_eq!(s.elapsed_ticks(), 0);
    assert!(!s.indicator_on());
    let t = s.timer_state();
    assert_eq!(
        t,
        MeasurementTimer { period_us: 0, started: false, listening: false, pending: false }
    );
}

#[test]
fn start_arms_the_timer() {
    let mut s = System::new();
    let reports = s.step(Event::StartEdge);
    assert!(reports.is_empty());
    assert!(s.measuring());
    let t = s.timer_state();
    assert!(t.started);
    assert_eq!(t.period_us, MEASUREMENT_PERIOD_US);
    assert_eq!(s.elapsed_ticks(), 0);
}

#[test]
fn each_expiry_counts_one_tick() {
    let mut s = System::new();
    s.step(Event::StartEdge);
    for i in 0..100u32 {
        let reports = s.step(Event::MeasurementExpiry);
        assert!(reports.is_empty());
        assert_eq!(s.elapsed_ticks(), i + 1);
    }
}

#[test]
fn stop_reports_and_resets() {
    let mut s = System::new();
    s.step(Event::StartEdge);
    s.step(Event::MeasurementExpiry);
    s.step(Event::MeasurementExpiry);
    let reports = s.step(Event::StopEdge);
    assert_eq!(reports, vec![2u32]);
    assert_eq!(s.elapsed_ticks(), 0);
    assert!(!s.measuring());
}

#[test]
fn one_second_of_ticks_reports_one_second() {
    let mut s = System::new();
    s.step(Event::StartEdge);
    for _ in 0..500_000u32 {
        s.step(Event::MeasurementExpiry);
    }
    let reports = s.step(Event::StopEdge);
    assert_eq!(reports, vec![500_000u32]);
    assert_eq!(ticks_to_micros(500_000), 1_000_000);
    let seconds = reports[0] as f64 * 2e-6;
    assert!((seconds - 1.0).abs() < 1e-9);
}

#[test]
fn stop_without_start_reports_zero() {
    let mut s = System::new();
    let before = s.timer_state();
    let reports = s.step(Event::StopEdge);
    assert_eq!(reports, vec![0u32]);
    assert_eq!(s.timer_state(), before);
    assert_eq!(s.elapsed_ticks(), 0);
    assert!(!s.measuring());
    let seconds = reports[0] as f64 * 2e-6;
    assert_eq!(seconds, 0.0);
}

#[test]
fn restart_keeps_accumulated_ticks() {
    let mut s = System::new();
    s.step(Event::StartEdge);
    for _ in 0..10u32 {
        s.step(Event::MeasurementExpiry);
    }
    s.step(Event::StartEdge);
    assert_eq!(s.elapsed_ticks(), 10);
    for _ in 0..5u32 {
        s.step(Event::MeasurementExpiry);
    }
    let reports = s.step(Event::StopEdge);
    assert_eq!(reports, vec![15u32]);
    let seconds = reports[0] as f64 * 2e-6;
    assert!((seconds - 3.0e-5).abs() < 1e-12);
}

#[test]
fn second_start_restarts_period_only() {
    let mut s = System::new();
    s.step(Event::StartEdge);
    for _ in 0..3u32 {
        s.step(Event::MeasurementExpiry);
    }
    let reports = s.step(Event::StartEdge);
    assert!(reports.is_empty());
    assert!(s.measuring());
    let t = s.timer_state();
    assert!(t.started);
    assert_eq!(t.period_us, MEASUREMENT_PERIOD_US);
    assert_eq!(s.elapsed_ticks(), 3);
}

#[test]
fn indicator_toggles_once_per_tick() {
    let mut s = System::new();
    for i in 1..=1000u32 {
        s.step(Event::TickExpiry);
        assert_eq!(s.indicator_on(), i % 2 == 1);
    }
    assert!(!s.indicator_on());
}

#[test]
fn indicator_ignores_measurement_state() {
    let mut s = System::new();
    s.step(Event::StartEdge);
    s.step(Event::MeasurementExpiry);
    for i in 1..=999u32 {
        s.step(Event::TickExpiry);
        assert_eq!(s.indicator_on(), i % 2 == 1);
    }
    assert!(s.indicator_on());
    assert!(s.measuring());
    assert_eq!(s.elapsed_ticks(), 1);
}

#[test]
fn ticks_interleave_with_indicator() {
    let mut s = System::new();
    s.step(Event::StartEdge);
    for _ in 0..4u32 {
        s.step(Event::MeasurementExpiry);
        s.step(Event::TickExpiry);
    }
    assert_eq!(s.elapsed_ticks(), 4);
    assert!(!s.indicator_on());
    let reports = s.step(Event::StopEdge);
    assert_eq!(reports, vec![4u32]);
}

#[test]
fn both_buttons_pending_starts_then_stops() {
    let mut s = System::new();
    s.raise(Event::StartEdge);
    s.raise(Event::StopEdge);
    let reports = s.drain();
    assert_eq!(reports, vec![0u32]);
    assert!(!s.measuring());
    assert!(s.timer_state().started);
    assert_eq!(s.timer_state().period_us, MEASUREMENT_PERIOD_US);
}

#[test]
fn ticks_to_micros_is_exact() {
    assert_eq!(ticks_to_micros(0), 0);
    assert_eq!(ticks_to_micros(1), 2);
    assert_eq!(ticks_to_micros(500_000), 1_000_000);
    assert_eq!(ticks_to_micros(u32::MAX), 2 * (u32::MAX as u64));
}

#[test]
fn priorities_order_the_tasks() {
    let button = task_priority(Task::Button);
    let tick = task_priority(Task::Tick);
    let accumulator = task_priority(Task::Accumulator);
    assert!(button > tick);
    assert!(tick > accumulator);
}

#[test]
fn ceilings_sit_at_the_button_priority() {
    assert_eq!(ceiling(SharedItem::MeasurementTimer), task_priority(Task::Button));
    assert_eq!(ceiling(SharedItem::ElapsedTicks), task_priority(Task::Button));
}

#[test]
fn sections_raise_and_restore_priority() {
    let mut core = Core::at_priority(task_priority(Task::Accumulator));
    assert_eq!(core.effective, task_priority(Task::Accumulator));
    let g = enter_section(&mut core, SharedItem::ElapsedTicks);
    assert_eq!(core.effective, ceiling(SharedItem::ElapsedTicks));
    assert_eq!(core.base, task_priority(Task::Accumulator));
    exit_section(&mut core, g);
    assert_eq!(core.effective, task_priority(Task::Accumulator));
}
