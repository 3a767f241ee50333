use kron::config::settings_of_text;
use kron::dates::{Date, LocalTime};
use kron::tick::{MinuteKey, SchedulerContext};

fn key(day: u32, minutes: u32) -> MinuteKey {
    MinuteKey { date: Date { year: 2024, month: 3, day }, minutes }
}

#[test]
fn minute_key_carries_date_and_minute() {
    let now = LocalTime { date: Date { year: 2024, month: 3, day: 15 }, hour: 8, minute: 0 };
    let k = MinuteKey::of(&now);
    assert_eq!(k, key(15, 480));
}

#[test]
fn same_minute_is_never_evaluated_twice() {
    let mut ctx = SchedulerContext::new();
    let k = key(15, 480);
    assert!(ctx.should_evaluate(&k));
    ctx.note_evaluated(&k);
    assert!(!ctx.should_evaluate(&k));
    // The next minute is evaluated again, as is the same minute of the next day.
    assert!(ctx.should_evaluate(&key(15, 481)));
    assert!(ctx.should_evaluate(&key(16, 480)));
}

#[test]
fn settings_text_parses_to_its_profile() {
    let st = settings_of_text("{\"active_profile\": 3}").expect("valid settings text");
    assert_eq!(st.active_profile, Some(3));
}

#[test]
fn absent_or_null_profile_reads_as_none() {
    let st = settings_of_text("{}").expect("an empty object is valid");
    assert_eq!(st.active_profile, None);
    let st = settings_of_text("{\"active_profile\": null}").expect("null is valid");
    assert_eq!(st.active_profile, None);
}

#[test]
fn malformed_settings_text_fails_to_parse() {
    assert!(settings_of_text("").is_none());
    assert!(settings_of_text("not json").is_none());
    assert!(settings_of_text("[1, 2]").is_none());
    assert!(settings_of_text("{\"active_profile\": \"three\"}").is_none());
}

#[test]
fn successful_read_caches_settings_and_advances_the_cursor() {
    let mut ctx = SchedulerContext::new();
    assert!(ctx.should_reparse(Some(5)));
    let st = ctx.apply_config_read(5, Some("{\"active_profile\": 2}"));
    assert_eq!(st.map(|s| s.active_profile), Some(Some(2)));
    assert_eq!(ctx.active_profile(), Some(2));
    // Idempotence: an unchanged modification time asks for no re-parse.
    assert!(!ctx.should_reparse(Some(5)));
    // A changed one does.
    assert!(ctx.should_reparse(Some(6)));
}

#[test]
fn missing_file_is_no_change() {
    let mut ctx = SchedulerContext::new();
    ctx.apply_config_read(5, Some("{\"active_profile\": 2}"));
    assert!(!ctx.should_reparse(None));
    assert_eq!(ctx.active_profile(), Some(2));
}

#[test]
fn failed_read_keeps_stale_settings_and_retries() {
    let mut ctx = SchedulerContext::new();
    ctx.apply_config_read(5, Some("{\"active_profile\": 2}"));
    // The file changed but could not be read: nothing changes.
    assert!(ctx.apply_config_read(6, None).is_none());
    assert_eq!(ctx.active_profile(), Some(2));
    assert!(ctx.should_reparse(Some(6)));
}

#[test]
fn failed_parse_keeps_stale_settings_and_retries() {
    let mut ctx = SchedulerContext::new();
    ctx.apply_config_read(5, Some("{\"active_profile\": 2}"));
    assert!(ctx.apply_config_read(6, Some("garbage")).is_none());
    assert_eq!(ctx.active_profile(), Some(2));
    // The cursor did not advance, so the next tick retries the same file.
    assert!(ctx.should_reparse(Some(6)));
}

#[test]
fn no_settings_means_no_active_profile() {
    let ctx = SchedulerContext::new();
    assert_eq!(ctx.active_profile(), None);
}
