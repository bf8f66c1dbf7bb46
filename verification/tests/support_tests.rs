use rand::rngs::SmallRng;
use rand::SeedableRng;

use merit_core::achievements::AchievementCadence;
use merit_core::active_app::ActiveAppCache;
use merit_core::input::AppContext;
use merit_core::hydrate::hydrate_day;
use merit_core::hydrate::AppRow;
use merit_core::hydrate::HourlyRow;
use merit_core::distance::MoveDelta;
use merit_core::bounds::BoundsState;
use merit_core::bounds::Rect;
use merit_core::monitors::CoordinateSpace;
use merit_core::listener::classify_global_key_down;
use merit_core::achievements::AchievementState;
use merit_core::achievements::AchievementUnlockRecord;
use merit_core::activity::ActivityTracker;
use merit_core::anim::MeritAnimator;
use merit_core::counter_map::CounterMap;
use merit_core::datekey::DateKey;
use merit_core::distance::isqrt;
use merit_core::distance::step_mp;
use merit_core::distance::DistanceTracker;
use merit_core::distance::MoveAccumulator;
use merit_core::history::HeatmapWriteBuffer;
use merit_core::input::InputSource;
use merit_core::input::LocalNow;
use merit_core::listener::effective_shifted;
use merit_core::listener::is_letter_code;
use merit_core::listener::is_modifier_code;
use merit_core::listener::shortcut_id;
use merit_core::listener::ListenerControl;
use merit_core::listener::ModState;
use merit_core::perf::PerfState;
use merit_core::persist::SaveDebouncer;
use merit_core::settings::Settings;
use merit_core::skins::custom_skin_settings_id;
use merit_core::skins::is_safe_id;
use merit_core::skins::parse_custom_skin_settings_id;
use merit_core::storage::MeritStorage;

fn day(y: u32, m: u32, d: u32) -> DateKey {
    DateKey::new(y, m, d).expect("valid date")
}

#[test]
fn counter_map_accumulates_and_merges() {
    let mut a = CounterMap::new();
    a.add("KeyA", 2);
    a.add("KeyB", 1);
    a.add("KeyA", 3);
    assert_eq!(a.get("KeyA"), 5);
    assert_eq!(a.get("KeyB"), 1);
    assert_eq!(a.get("KeyC"), 0);

    let mut b = CounterMap::new();
    b.add("KeyA", 10);
    b.merge(&a);
    assert_eq!(b.get("KeyA"), 15);
    assert_eq!(b.get("KeyB"), 1);
}

#[test]
fn date_keys_order_by_calendar() {
    let a = day(2023, 12, 31);
    let b = day(2024, 1, 1);
    assert!(a.is_before(&b));
    assert!(!b.is_before(&a));
    assert_eq!(b.ord(), 20240101);
    assert!(DateKey::new(2024, 13, 1).is_none());
    assert!(DateKey::new(2024, 0, 1).is_none());
    assert!(DateKey::new(1969, 12, 31).is_none());
    assert!(LocalNow::new(b, 24, 0).is_none());
    assert!(LocalNow::new(b, 23, 0).is_some());
}

#[test]
fn default_settings_count_both_modalities() {
    let s = Settings::new();
    assert!(s.enable_keyboard);
    assert!(s.enable_mouse_single);
    assert_eq!(s.click_heatmap_grid_cols, 64);
    assert_eq!(s.click_heatmap_grid_rows, 36);
}

#[test]
fn activity_clock_reports_idle_time() {
    let mut t = ActivityTracker::init(1_000);
    assert_eq!(t.idle_for_ms(1_500), 500);
    t.touch(2_000);
    assert_eq!(t.last_activity_ms(9_999), 2_000);
    assert_eq!(t.idle_for_ms(2_600), 600);
}

#[test]
fn isqrt_is_exact_on_squares_and_floors_between() {
    assert_eq!(isqrt(0), 0);
    assert_eq!(isqrt(1), 1);
    assert_eq!(isqrt(24), 4);
    assert_eq!(isqrt(25), 5);
    assert_eq!(isqrt(26), 5);
    assert_eq!(isqrt(u64::MAX), 4294967295);
}

#[test]
fn step_distance_matches_euclid_in_milli_pixels() {
    // A 3-4-5 triangle: exactly five pixels of travel.
    assert_eq!(step_mp(3, 4), 5_000);
    assert_eq!(step_mp(-3, -4), 5_000);
    assert_eq!(step_mp(0, 0), 0);
    // One diagonal pixel: sqrt(2) in milli-pixels, rounded to nearest.
    assert_eq!(step_mp(1, 1), 1_414);
    // sqrt(13) = 3.60555..., which rounds up.
    assert_eq!(step_mp(2, 3), 3_606);
}

#[test]
fn distance_tracker_carries_sub_pixel_remainders() {
    let d = day(2024, 5, 1);
    let now = LocalNow::new(d, 10, 1_000).expect("valid moment");
    let mut tracker = DistanceTracker::new();
    let mut acc = MoveAccumulator::new();
    let mut storage = MeritStorage::new(d);

    // First observation sets the anchor; the second moves one diagonal
    // pixel (1414 mp) and flushes after the send interval.
    assert!(tracker.record_move("main", 0, 0, 0).is_empty());
    let flushed = tracker.record_move("main", 1, 1, 200);
    assert_eq!(flushed.len(), 1);
    for delta in &flushed {
        acc.absorb(delta);
    }
    acc.flush(&mut storage, now, 1_000);
    // One whole pixel lands in the store; 414 milli-pixels carry forward.
    assert_eq!(storage.stats.today.mouse_move_distance_px, 1);
    assert_eq!(acc.pending.get("main"), 414);
}

#[test]
fn warp_sized_jumps_add_no_distance() {
    let mut tracker = DistanceTracker::new();
    assert!(tracker.record_move("main", 0, 0, 0).is_empty());
    let flushed = tracker.record_move("main", 100_000, 0, 200);
    assert!(flushed.is_empty());
    assert_eq!(tracker.current_mp, 0);
}

#[test]
fn animation_chunks_stay_between_one_and_nine() {
    let mut rng = SmallRng::seed_from_u64(7);
    let mut animator = MeritAnimator::new();
    let first = animator
        .feed(InputSource::Keyboard, 50, &mut rng, 0)
        .expect("first unit pops immediately");
    assert!(first.count >= 1 && first.count <= 9);
    let mut drained = first.count;
    let mut t = 0u64;
    let mut saw_partial_chunk = false;
    while drained < 50 {
        t += 120;
        for ev in animator.poll(&mut rng, t) {
            assert!(ev.count >= 1 && ev.count <= 9);
            if ev.count < 9 && 50 - drained >= 9 {
                saw_partial_chunk = true;
            }
            drained += ev.count;
        }
    }
    assert_eq!(drained, 50);
    // The draw is random, not the backlog cap: with this seed some chunk
    // comes out below the cap while plenty is pending.
    assert!(saw_partial_chunk);
}

#[test]
fn idle_animation_accumulators_are_evicted() {
    let mut rng = SmallRng::seed_from_u64(3);
    let mut animator = MeritAnimator::new();
    // One unit pops immediately and leaves an empty accumulator behind.
    let first = animator.feed(InputSource::Keyboard, 1, &mut rng, 0).expect("immediate pop");
    assert_eq!(first.count, 1);
    assert!(animator.keyboard.is_some());
    // Quiet for longer than the idle window: the next poll evicts it.
    assert!(animator.poll(&mut rng, 3_000).is_empty());
    assert!(animator.keyboard.is_none());
    assert!(animator.mouse.is_none());
}

#[test]
fn stats_broadcasts_throttle_to_the_interval() {
    let mut animator = MeritAnimator::new();
    animator.mark_dirty();
    assert!(animator.should_emit_stats(1_000));
    animator.mark_stats_emitted(1_000);
    animator.mark_dirty();
    assert!(!animator.should_emit_stats(1_100));
    assert!(animator.should_emit_stats(1_200));
}

#[test]
fn shortcut_ids_join_modifiers_in_order() {
    assert_eq!(shortcut_id(true, true, false, false, "KeyA"), "Meta+Ctrl+KeyA");
    assert_eq!(shortcut_id(false, false, true, true, "Digit1"), "Alt+Shift+Digit1");
    assert_eq!(shortcut_id(false, false, false, false, "KeyZ"), "KeyZ");
}

#[test]
fn shift_and_caps_cancel_on_letters_only() {
    assert!(is_letter_code("KeyA"));
    assert!(!is_letter_code("Digit1"));
    assert!(is_modifier_code("CapsLock"));
    assert!(!is_modifier_code("KeyQ"));
    assert!(effective_shifted("KeyA", true, false));
    assert!(!effective_shifted("KeyA", true, true));
    assert!(effective_shifted("Digit1", true, true));
}

#[test]
fn mod_state_tracks_presses_and_releases() {
    let mut st = ModState::new();
    st.on_key_press("ShiftLeft");
    st.on_key_press("CapsLock");
    assert!(st.shift());
    assert!(st.caps_lock);
    st.on_key_release("ShiftLeft");
    st.on_key_release("CapsLock");
    assert!(!st.shift());
    // Caps Lock release keeps the toggle.
    assert!(st.caps_lock);
    st.on_key_press("CapsLock");
    assert!(!st.caps_lock);
}

#[test]
fn listener_control_gates_and_suppresses() {
    let mut c = ListenerControl::new();
    assert!(c.is_listening_enabled());
    c.set_listening_enabled(false);
    assert!(!c.is_listening_enabled());
    c.suppress_mouse_for(300, 1_000);
    assert!(c.should_suppress_mouse_press(1_200));
    assert!(!c.should_suppress_mouse_press(1_300));
}

#[test]
fn skin_settings_ids_round_trip() {
    let id = custom_skin_settings_id("my-skin_2");
    assert_eq!(id, "custom:my-skin_2");
    assert_eq!(parse_custom_skin_settings_id(&id), Some("my-skin_2"));
    assert_eq!(parse_custom_skin_settings_id("rosewood"), None);
    assert!(is_safe_id("my-skin_2"));
    assert!(!is_safe_id("My Skin"));
    assert!(!is_safe_id(""));
}

#[test]
fn perf_counters_move_only_while_enabled() {
    let mut p = PerfState::new();
    p.inc_input_key();
    p.inc_enqueue_triggers(5);
    p.set_enabled(false);
    p.inc_input_key();
    p.set_enabled(true);
    p.record_batch_process(3, 1_000);
    let snap = p.snapshot(42);
    assert_eq!(snap.counters.input_events_key, 1);
    assert_eq!(snap.counters.enqueue_triggers_total, 5);
    assert_eq!(snap.counters.batch_process_calls, 1);
    assert_eq!(snap.timings.batch_process.avg_ns, 1_000);
    assert_eq!(snap.uptime_ms, 42);
}

#[test]
fn save_requests_coalesce_into_one_write() {
    let mut d = SaveDebouncer::new();
    d.request_save(1_000);
    d.request_save(1_100);
    d.request_save(1_500);
    assert!(!d.take_due(1_200));
    assert!(d.take_due(1_700));
    assert!(!d.take_due(1_800));
}

#[test]
fn heatmap_write_buffer_flushes_on_interval_or_volume() {
    let d = day(2024, 5, 1);
    let mut buf = HeatmapWriteBuffer::new();
    assert!(!buf.should_flush(10_000));
    buf.record("main", d, 7);
    assert!(!buf.should_flush(100));
    assert!(buf.should_flush(700));
    for _ in 0..1199 {
        buf.record("main", d, 7);
    }
    assert!(buf.should_flush(100));
    let batch = buf.take_batch(700);
    let (cell, total) = batch.displays.read("main", 7);
    assert_eq!(cell, 1200);
    assert_eq!(total, 1200);
    assert!(!buf.should_flush(10_000));
}

#[test]
fn hydration_rebuilds_maps_exactly_from_rows() {
    let d = day(2024, 4, 4);
    let mut today = merit_core::daily::DailyStats::new(d);
    let key_rows = vec![(String::from("KeyA"), 7u64), (String::from("KeyB"), 2u64)];
    let empty: Vec<(String, u64)> = Vec::new();
    let hourly_rows = vec![HourlyRow { hour: 9, total: 9, keyboard: 9, mouse_single: 0 }];
    let app_rows = vec![AppRow {
        app_id: String::from("/usr/bin/example"),
        name: Some(String::from("Example")),
        keyboard: 6,
        mouse_single: 4,
    }];
    hydrate_day(&mut today, &key_rows, &empty, &empty, &empty, &empty, &hourly_rows, &app_rows);
    assert_eq!(today.key_counts.get("KeyA"), 7);
    assert_eq!(today.key_counts.get("KeyB"), 2);
    assert_eq!(today.key_counts.get("KeyC"), 0);
    assert_eq!(today.hourly[9].total, 9);
    assert_eq!(today.hourly[8].total, 0);
    let (total, kb, ms) = today.app_input_counts.get_counts("/usr/bin/example");
    assert_eq!((total, kb, ms), (10, 6, 4));
}

#[test]
fn foreground_app_cache_replaces_wholesale() {
    let mut cache = ActiveAppCache::new();
    assert_eq!(cache.current_or_unknown().id, "__unknown__");
    cache.set_cached(AppContext { id: String::from("/usr/bin/example"), name: None });
    assert_eq!(cache.current_or_unknown().id, "/usr/bin/example");
}

#[test]
fn disabled_distance_tracking_drops_pending() {
    let mut acc = MoveAccumulator::new();
    acc.absorb(&MoveDelta { display_id: String::from("main"), mp: 2_500 });
    acc.set_tracking_enabled(false);
    assert_eq!(acc.pending.get("main"), 0);
    acc.absorb(&MoveDelta { display_id: String::from("main"), mp: 900 });
    assert_eq!(acc.pending.get("main"), 0);
    acc.set_tracking_enabled(true);
    acc.absorb(&MoveDelta { display_id: String::from("main"), mp: 900 });
    assert_eq!(acc.pending.get("main"), 900);
}

#[test]
fn window_bounds_swallow_clicks_only_when_visible() {
    let rect = Rect { left: 10, top: 20, right: 110, bottom: 120 };
    assert!(rect.contains(10, 20));
    assert!(rect.contains(109, 119));
    assert!(!rect.contains(110, 20));
    assert!(!rect.contains(10, 120));

    let mut b = BoundsState::new();
    assert!(!b.contains_point(CoordinateSpace::Physical, 50, 50));
    b.visible = true;
    b.physical = Some(rect);
    assert!(b.contains_point(CoordinateSpace::Physical, 50, 50));
    assert!(!b.contains_point(CoordinateSpace::Logical, 50, 50));
}

#[test]
fn key_presses_classify_into_shift_state_and_shortcut() {
    let (shifted, shortcut) = classify_global_key_down("KeyA", true, true, true, false, false);
    assert!(!shifted);
    assert_eq!(shortcut.as_deref(), Some("Ctrl+Shift+KeyA"));

    let (_, none) = classify_global_key_down("KeyA", false, false, false, false, false);
    assert!(none.is_none());

    // A chord on a modifier key itself forms no shortcut.
    let (_, none) = classify_global_key_down("ControlLeft", false, false, true, false, false);
    assert!(none.is_none());
}

#[test]
fn achievements_dedupe_and_keep_newest_first() {
    let rec = |id: &str, ts: u64| AchievementUnlockRecord {
        achievement_id: String::from(id),
        cadence: AchievementCadence::Daily,
        period_key: String::from("2024-05-01"),
        unlocked_at_ms: ts,
    };
    let mut st = AchievementState::new();
    let accepted = st.append_unlocks(vec![rec("a", 10), rec("b", 30), rec("a", 99), rec("", 5)]);
    assert_eq!(accepted, 2);
    assert_eq!(st.unlock_history.len(), 2);
    assert!(st.unlock_history[0].unlocked_at_ms >= st.unlock_history[1].unlocked_at_ms);
    // The same (achievement, cadence, period) cannot unlock twice.
    let again = st.append_unlocks(vec![rec("a", 500)]);
    assert_eq!(again, 0);
}
