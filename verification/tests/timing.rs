use block_timer::BlockTimer;
use block_timer::PrettyDuration;
use block_timer::nanos_from_duration;
use block_timer::nanos_from_parts;
use block_timer::report_line;
use std::time::Duration;

#[test]
fn it_works() {
    assert_eq!(2 + 2, 4);
}

#[test]
fn zero_renders_as_nanoseconds() {
    assert_eq!(PrettyDuration::new(0).render(), "0ns");
}

#[test]
fn nanoseconds_render_plain() {
    assert_eq!(PrettyDuration::new(500).render(), "500ns");
    assert_eq!(PrettyDuration::new(999).render(), "999ns");
}

#[test]
fn microseconds_render_without_sub_digit() {
    assert_eq!(PrettyDuration::new(1_500).render(), "1us");
    assert_eq!(PrettyDuration::new(1_000).render(), "1us");
    assert_eq!(PrettyDuration::new(999_999).render(), "999us");
}

#[test]
fn milliseconds_render_with_truncated_digit() {
    assert_eq!(PrettyDuration::new(2_340_000).render(), "2.3ms");
    assert_eq!(PrettyDuration::new(1_000_000).render(), "1.0ms");
    assert_eq!(PrettyDuration::new(999_999_999).render(), "999.9ms");
}

#[test]
fn seconds_render_with_truncated_digit() {
    assert_eq!(PrettyDuration::new(1_050_000_000).render(), "1.0s");
    assert_eq!(PrettyDuration::new(1_000_000_000).render(), "1.0s");
}

#[test]
fn truncation_never_rounds() {
    assert_eq!(PrettyDuration::new(1_999_900_000).render(), "1.9s");
    assert_eq!(PrettyDuration::new(1_999_000).render(), "1.9ms");
}

#[test]
fn largest_count_renders() {
    assert_eq!(PrettyDuration::new(u64::MAX).render(), "18446744073.7s");
}

#[test]
fn decomposition_recombines_exactly() {
    let total: u64 = 1_234_567_890;
    let d = PrettyDuration::new(total);
    assert_eq!(d.secs, 1);
    assert_eq!(d.millis, 234);
    assert_eq!(d.micros, 567);
    assert_eq!(d.nanos, 890);
    assert_eq!(
        d.secs * 1_000_000_000 + d.millis * 1_000_000 + d.micros * 1_000 + d.nanos,
        total
    );
}

#[test]
fn decomposition_bounds_residuals() {
    for total in [0u64, 999, 1_000, 999_999_999, 1_000_000_000, u64::MAX] {
        let d = PrettyDuration::new(total);
        assert!(d.millis < 1000);
        assert!(d.micros < 1000);
        assert!(d.nanos < 1000);
        assert_eq!(
            d.secs
                .checked_mul(1_000_000_000)
                .and_then(|b| b.checked_add(d.millis * 1_000_000 + d.micros * 1_000 + d.nanos)),
            Some(total)
        );
    }
}

#[test]
fn suffix_matches_coarsest_nonzero_field() {
    assert!(PrettyDuration::new(3_000_000_000).render().ends_with('s'));
    assert!(!PrettyDuration::new(3_000_000_000).render().ends_with("ms"));
    assert!(PrettyDuration::new(3_000_000).render().ends_with("ms"));
    assert!(PrettyDuration::new(3_000).render().ends_with("us"));
    assert!(PrettyDuration::new(3).render().ends_with("ns"));
}

#[test]
fn report_line_joins_label_and_rendering() {
    assert_eq!(report_line("work", 2_340_000), "work: 2.3ms");
    assert_eq!(report_line("", 0), ": 0ns");
}

#[test]
fn nanos_from_parts_combines() {
    assert_eq!(nanos_from_parts(0, 0), 0);
    assert_eq!(nanos_from_parts(2, 340_000_000), 2_340_000_000);
    assert_eq!(nanos_from_parts(1, 999_999_999), 1_999_999_999);
}

#[test]
fn nanos_from_parts_saturates() {
    assert_eq!(nanos_from_parts(u64::MAX, 0), u64::MAX);
    assert_eq!(nanos_from_parts(18_446_744_074, 0), u64::MAX);
    assert_eq!(nanos_from_parts(18_446_744_073, 709_551_615), u64::MAX);
    assert_eq!(nanos_from_parts(18_446_744_073, 709_551_614), u64::MAX - 1);
}

#[test]
fn nanos_from_duration_matches_parts() {
    assert_eq!(nanos_from_duration(Duration::from_nanos(0)), 0);
    assert_eq!(nanos_from_duration(Duration::from_nanos(2_340_000)), 2_340_000);
    assert_eq!(nanos_from_duration(Duration::new(2, 340_000_000)), 2_340_000_000);
    assert_eq!(nanos_from_duration(Duration::from_secs(u64::MAX)), u64::MAX);
}

#[test]
fn timer_starts_running_with_its_label() {
    let t = BlockTimer::new("work");
    assert_eq!(t.label(), "work");
    assert!(!t.is_stopped());
}

#[test]
fn stop_stops_and_a_second_stop_is_a_no_op() {
    let mut t = BlockTimer::new("work");
    t.stop();
    assert!(t.is_stopped());
    t.stop();
    assert!(t.is_stopped());
    assert_eq!(t.label(), "work");
}

#[test]
fn stopped_timer_survives_scope_exit() {
    let mut t = BlockTimer::new("work");
    t.stop();
    drop(t);
}

#[test]
fn unstopped_timer_reports_at_scope_exit() {
    let t = BlockTimer::new("scope");
    drop(t);
}

#[test]
fn dynamic_labels_are_accepted() {
    let label = format!("step {}", 3);
    let t = BlockTimer::new(&label);
    assert_eq!(t.label(), "step 3");
}
