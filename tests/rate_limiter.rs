use spotify_download::config::{DownloadOptions, Format, RateLimitConfig, MULTIPLIER_ONE};
use spotify_download::limiter::{RateLimiter, RateLimiterState};

#[test]
fn multiplier_below_one_becomes_one() {
    let c = RateLimitConfig::new(100, 500, 1000);
    assert_eq!(c.multiplier_permille, MULTIPLIER_ONE);
    let c = RateLimitConfig::new(100, 0, 1000);
    assert_eq!(c.multiplier_permille, 1000);
    let c = RateLimitConfig::new(100, 2500, 1000);
    assert_eq!(c.multiplier_permille, 2500);
}

#[test]
fn max_below_base_is_raised() {
    let c = RateLimitConfig::new(500, 2000, 100);
    assert_eq!(c.max_delay_ms, 500);
    let c = RateLimitConfig::new(500, 2000, 900);
    assert_eq!(c.max_delay_ms, 900);
    assert!(c.reset_after_success);
    assert!(c.is_enabled());
}

#[test]
fn disabled_and_default() {
    let d = RateLimitConfig::disabled();
    assert_eq!(d.base_delay_ms, 0);
    assert_eq!(d.max_delay_ms, 0);
    assert_eq!(d.multiplier_permille, 1000);
    assert!(!d.is_enabled());
    assert_eq!(RateLimitConfig::default(), d);
}

#[test]
fn disabled_limiter_does_nothing() {
    let mut l = RateLimiter::new(RateLimitConfig::disabled());
    let before = l;
    assert_eq!(l.on_failure(10), 0);
    assert_eq!(l, before);
    assert_eq!(l.poll_ready(10), None);
    l.on_success(10);
    assert_eq!(l, before);
    let mut zero_base = RateLimiter::new(RateLimitConfig::new(0, 3000, 500));
    assert_eq!(zero_base.on_failure(0), 0);
    assert_eq!(zero_base.state.next_ready_ms, None);
}

#[test]
fn backoff_sequence_doubles_up_to_cap() {
    let mut l = RateLimiter::new(RateLimitConfig::new(100, 2000, 1000));
    let delays: Vec<u64> = (0..6).map(|i| l.on_failure(i)).collect();
    assert_eq!(delays, vec![100, 200, 400, 800, 1000, 1000]);
    assert_eq!(l.state.current_delay_ms, 1000);
}

#[test]
fn backoff_sequence_fractional_multiplier() {
    let mut l = RateLimiter::new(RateLimitConfig::new(100, 1500, 10_000));
    let delays: Vec<u64> = (0..4).map(|_| l.on_failure(0)).collect();
    assert_eq!(delays, vec![100, 150, 225, 337]);
}

#[test]
fn multiplier_one_keeps_delay() {
    let mut l = RateLimiter::new(RateLimitConfig::new(250, 1000, 10_000));
    assert_eq!(l.on_failure(0), 250);
    assert_eq!(l.on_failure(0), 250);
}

#[test]
fn failure_sets_deadline_and_never_shortens_it() {
    let mut l = RateLimiter::new(RateLimitConfig::new(100, 2000, 1000));
    l.on_failure(1000);
    assert_eq!(l.state.next_ready_ms, Some(1100));
    l.on_failure(1010);
    assert_eq!(l.state.next_ready_ms, Some(1210));
    // A deadline further ahead than the new one is kept.
    l.state.next_ready_ms = Some(5000);
    l.on_failure(1020);
    assert_eq!(l.state.next_ready_ms, Some(5000));
}

#[test]
fn success_after_deadline_resets() {
    let mut l = RateLimiter::new(RateLimitConfig::new(100, 2000, 1000));
    l.on_failure(1000);
    l.on_failure(1000);
    l.on_success(1200);
    assert_eq!(l.state, RateLimiterState { current_delay_ms: 0, next_ready_ms: None });
    assert_eq!(l.on_failure(1300), 100);
}

#[test]
fn success_while_deadline_pending_keeps_state() {
    let mut l = RateLimiter::new(RateLimitConfig::new(100, 2000, 1000));
    l.on_failure(1000);
    let before = l;
    l.on_success(1050);
    assert_eq!(l, before);
}

#[test]
fn success_without_reset_keeps_state() {
    let mut c = RateLimitConfig::new(100, 2000, 1000);
    c.reset_after_success = false;
    let mut l = RateLimiter::new(c);
    l.on_failure(0);
    let before = l;
    l.on_success(10_000);
    assert_eq!(l, before);
}

#[test]
fn poll_waits_until_deadline() {
    let mut l = RateLimiter::new(RateLimitConfig::new(100, 2000, 1000));
    assert_eq!(l.poll_ready(0), None);
    l.on_failure(1000);
    assert_eq!(l.poll_ready(1000), Some(100));
    assert_eq!(l.poll_ready(1099), Some(1));
    assert_eq!(l.state.next_ready_ms, Some(1100));
    assert_eq!(l.poll_ready(1100), None);
    assert_eq!(l.state.next_ready_ms, None);
    assert_eq!(l.state.current_delay_ms, 100);
}

#[test]
fn second_job_waits_after_first_fails() {
    let mut l = RateLimiter::new(RateLimitConfig::new(100, 2000, 1000));
    let failed_at = 5000;
    assert_eq!(l.on_failure(failed_at), 100);
    // The second job may not start before 100 ms have passed.
    let wait = l.poll_ready(failed_at).unwrap();
    assert!(wait >= 100);
    assert_eq!(l.poll_ready(failed_at + wait), None);
    assert_eq!(l.on_failure(failed_at + wait + 1), 200);
}

#[test]
fn options_defaults_and_setters() {
    let mut o = DownloadOptions::new("music".to_string(), 5, Format::Flac, false);
    assert_eq!(o.destination, "music");
    assert_eq!(o.parallel, 5);
    assert!(!o.force);
    assert!(!o.json_events);
    assert_eq!(o.rate_limit, RateLimitConfig::disabled());
    let c = RateLimitConfig::new(100, 2000, 1000);
    o.set_rate_limit(c);
    assert_eq!(o.rate_limit, c);
    o.enable_json_events(true);
    assert!(o.json_events);
}

#[test]
fn output_filename_is_label_dot_extension() {
    let o = DownloadOptions::new("d".to_string(), 1, Format::Flac, false);
    assert_eq!(o.output_filename("Artist - Song"), "Artist - Song.flac");
    let o = DownloadOptions::new("d".to_string(), 1, Format::Mp3, false);
    assert_eq!(o.output_filename("x"), "x.mp3");
    assert_eq!(o.output_filename(""), ".mp3");
    assert_eq!(Format::Flac.extension(), "flac");
}
