use merit_core::anim::MeritAnimator;
use merit_core::anim::STATS_EMIT_INTERVAL_MS;
use merit_core::batcher::process_triggers;
use merit_core::batcher::Trigger;
use merit_core::datekey::DateKey;
use merit_core::input::InputOrigin;
use merit_core::input::InputSource;
use merit_core::input::LocalNow;
use merit_core::storage::MeritStorage;

fn day(y: u32, m: u32, d: u32) -> DateKey {
    DateKey::new(y, m, d).expect("valid date")
}

fn at(date: DateKey, hour: u8, ms: u64) -> LocalNow {
    LocalNow::new(date, hour, ms).expect("valid moment")
}

fn key_trigger(count: u64) -> Trigger {
    Trigger {
        origin: InputOrigin::Global,
        source: InputSource::Keyboard,
        count,
        key_code: Some(String::from("KeyA")),
        is_shifted: Some(false),
        shortcut: None,
        app: None,
    }
}

#[test]
fn fifty_same_key_triggers_across_three_batches_count_fifty() {
    let d = day(2024, 5, 1);
    let now = at(d, 10, 1_000);
    let mut storage = MeritStorage::new(d);
    let mut animator = MeritAnimator::new();

    // 50 units split over 3 rapid batches: 20 + 20 + 10.
    let mut emitted_in_window = 0u32;
    let mut t_ms = 1_000u64;
    let window_start = t_ms;
    for batch_size in [20u64, 20, 10] {
        let batch: Vec<Trigger> = (0..batch_size).map(|_| key_trigger(1)).collect();
        let (dirty, _gk, _gm) = process_triggers(&mut storage, &batch, now);
        assert!(dirty);
        if animator.should_emit_stats(t_ms) {
            emitted_in_window += 1;
            animator.mark_stats_emitted(t_ms);
        } else {
            animator.mark_dirty();
        }
        t_ms += 30;
    }
    // One more poll at the end of the 200 ms window.
    if animator.should_emit_stats(window_start + STATS_EMIT_INTERVAL_MS) {
        emitted_in_window += 1;
        animator.mark_stats_emitted(window_start + STATS_EMIT_INTERVAL_MS);
    }

    assert_eq!(storage.stats.total_merit, 50);
    assert_eq!(storage.stats.today.total, 50);
    assert_eq!(storage.stats.today.key_counts.get("KeyA"), 50);
    // Exactly one broadcast within the 200 ms window.
    assert_eq!(emitted_in_window, 1);
}

#[test]
fn disabled_mouse_counting_applies_nothing() {
    let d = day(2024, 5, 1);
    let now = at(d, 9, 500);
    let mut storage = MeritStorage::new(d);
    let mut settings = merit_core::settings::Settings::new();
    settings.enable_mouse_single = false;
    storage.update_settings(settings);

    for _ in 0..10 {
        let applied = storage.add_merit_silent(
            InputOrigin::Global,
            InputSource::MouseSingle,
            1,
            None,
            None,
            now,
        );
        assert!(!applied);
    }
    assert_eq!(storage.stats.total_merit, 0);
    assert_eq!(storage.stats.today.total, 0);
}

#[test]
fn day_rollover_archives_yesterday_unchanged() {
    let d1 = day(2024, 5, 1);
    let d2 = day(2024, 5, 2);
    let mut stats = merit_core::merit_stats::MeritStats::new(d1);

    stats.add_merit(InputSource::Keyboard, 5, at(d1, 8, 100));
    assert_eq!(stats.today.total, 5);

    // The first increment of the new day archives yesterday with its total
    // untouched and starts the new day at zero before counting it.
    stats.add_merit(InputSource::MouseSingle, 1, at(d2, 0, 200));
    assert_eq!(stats.history.len(), 1);
    assert_eq!(stats.history[0].total, 5);
    assert_eq!(stats.history[0].date, d1);
    assert_eq!(stats.today.date, d2);
    assert_eq!(stats.today.total, 1);
    assert_eq!(stats.total_merit, 6);
}

#[test]
fn batched_counting_equals_unbatched() {
    let d = day(2024, 6, 3);
    let now = at(d, 12, 9_000);
    let triggers: Vec<u64> = vec![3, 1, 7, 2, 5, 9, 4];

    let mut batched = MeritStorage::new(d);
    let all: Vec<Trigger> = triggers.iter().map(|&c| key_trigger(c)).collect();
    process_triggers(&mut batched, &all, now);

    let mut unbatched = MeritStorage::new(d);
    for &c in &triggers {
        let one = vec![key_trigger(c)];
        process_triggers(&mut unbatched, &one, now);
    }

    assert_eq!(batched.stats.total_merit, unbatched.stats.total_merit);
    assert_eq!(batched.stats.total_merit, 31);
    assert_eq!(
        batched.stats.today.key_counts.get("KeyA"),
        unbatched.stats.today.key_counts.get("KeyA")
    );
}

#[test]
fn app_origin_counts_with_global_listening_off() {
    let d = day(2024, 5, 1);
    let now = at(d, 9, 500);
    let mut storage = MeritStorage::new(d);
    let mut settings = merit_core::settings::Settings::new();
    settings.enable_keyboard = false;
    settings.enable_mouse_single = false;
    storage.update_settings(settings);

    let applied =
        storage.add_merit_silent(InputOrigin::App, InputSource::MouseSingle, 2, None, None, now);
    assert!(applied);
    assert_eq!(storage.stats.total_merit, 2);
}

#[test]
fn shortcut_and_shifted_counts_fold_into_today() {
    let d = day(2024, 7, 1);
    let now = at(d, 20, 77);
    let mut storage = MeritStorage::new(d);
    let batch = vec![Trigger {
        origin: InputOrigin::Global,
        source: InputSource::Keyboard,
        count: 1,
        key_code: Some(String::from("KeyA")),
        is_shifted: Some(true),
        shortcut: Some(String::from("Meta+KeyA")),
        app: None,
    }];
    process_triggers(&mut storage, &batch, now);
    assert_eq!(storage.stats.today.key_counts.get("KeyA"), 1);
    assert_eq!(storage.stats.today.key_counts_shifted.get("KeyA"), 1);
    assert_eq!(storage.stats.today.key_counts_unshifted.get("KeyA"), 0);
    assert_eq!(storage.stats.today.shortcut_counts.get("Meta+KeyA"), 1);
    assert_eq!(storage.stats.today.hourly[20].total, 1);
    assert_eq!(storage.stats.today.hourly[20].keyboard, 1);
}
