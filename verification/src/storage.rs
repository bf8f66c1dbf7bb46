//! The counting store: exclusive owner of the live stats, settings,
//! achievements, window placements and click-heatmap state.
//!
//! Counting policy: an explicit in-app action always counts; a global action
//! counts only while its modality's toggle is enabled. Merit from a disabled
//! global source is reported as "not applied" and changes nothing.

use vstd::prelude::*;

use crate::achievements::AchievementState;
use crate::achievements::AchievementUnlockRecord;
use crate::counter_map::CounterMap;
use crate::datekey::DateKey;
use crate::heatmap_state::ClickHeatmapState;
use crate::input::AppContext;
use crate::input::InputOrigin;
use crate::input::InputSource;
use crate::input::LocalNow;
use crate::merit_stats::MeritStats;
use crate::placement::PlacementMap;
use crate::placement::WindowPlacement;
use crate::settings::Settings;

verus! {

/// The per-key detail of a keyboard batch.
#[derive(Debug)]
pub struct KeyboardCounts {
    pub key_counts: Option<CounterMap>,
    pub key_counts_unshifted: Option<CounterMap>,
    pub key_counts_shifted: Option<CounterMap>,
    pub shortcut_counts: Option<CounterMap>,
}

impl KeyboardCounts {
    /// All four maps, where present, well-formed.
    pub open spec fn wf(self) -> bool {
        &&& (self.key_counts is Some ==> self.key_counts->0.wf())
        &&& (self.key_counts_unshifted is Some ==> self.key_counts_unshifted->0.wf())
        &&& (self.key_counts_shifted is Some ==> self.key_counts_shifted->0.wf())
        &&& (self.shortcut_counts is Some ==> self.shortcut_counts->0.wf())
    }
}

/// The per-button detail of a mouse batch.
#[derive(Debug)]
pub struct MouseCounts {
    pub mouse_button_counts: Option<CounterMap>,
}

impl MouseCounts {
    /// The map, where present, well-formed.
    pub open spec fn wf(self) -> bool {
        self.mouse_button_counts is Some ==> self.mouse_button_counts->0.wf()
    }
}

/// Whether the policy counts an action of this origin and source.
pub open spec fn spec_should_count(
    settings: Settings,
    origin: InputOrigin,
    source: InputSource,
) -> bool {
    match origin {
        InputOrigin::App => true,
        InputOrigin::Global => match source {
            InputSource::Keyboard => settings.enable_keyboard,
            InputSource::MouseSingle => settings.enable_mouse_single,
        },
    }
}

/// The detail map a keyboard batch contributes to slot `which` of today's
/// record: 0 per-key, 1 unshifted, 2 shifted, 3 shortcuts. `None` when the
/// batch is not a keyboard batch or carries no such map.
pub open spec fn spec_batch_map(
    source: InputSource,
    keyboard: Option<&KeyboardCounts>,
    which: int,
) -> Option<CounterMap> {
    if source is Keyboard && keyboard is Some {
        if which == 0 {
            keyboard->0.key_counts
        } else if which == 1 {
            keyboard->0.key_counts_unshifted
        } else if which == 2 {
            keyboard->0.key_counts_shifted
        } else {
            keyboard->0.shortcut_counts
        }
    } else {
        None
    }
}

/// The per-button map a mouse batch contributes; `None` when the batch is
/// not a mouse batch or carries none.
pub open spec fn spec_mouse_batch_map(
    source: InputSource,
    mouse: Option<&MouseCounts>,
) -> Option<CounterMap> {
    if source is MouseSingle && mouse is Some {
        mouse->0.mouse_button_counts
    } else {
        None
    }
}

/// The count an optional batch map holds under `k`; zero when there is no
/// map.
pub open spec fn spec_map_get(m: Option<CounterMap>, k: Seq<char>) -> u64 {
    match m {
        Some(c) => c.spec_get(k),
        None => 0,
    }
}

/// The single source of truth for live counters and the state around them.
#[derive(Debug)]
pub struct MeritStorage {
    pub stats: MeritStats,
    pub settings: Settings,
    pub achievements: AchievementState,
    pub window_placements: PlacementMap,
    pub click_heatmap: ClickHeatmapState,
}

impl MeritStorage {
    /// Every component well-formed.
    pub open spec fn wf(self) -> bool {
        &&& self.stats.wf()
        &&& self.achievements.wf()
        &&& self.window_placements.wf()
        &&& self.click_heatmap.wf()
    }

    /// A fresh store with default settings and nothing counted.
    pub fn new(today: DateKey) -> (r: MeritStorage)
        requires
            today.wf(),
        ensures
            r.wf(),
            r.stats.total_merit == 0,
            r.stats.today.date == today,
            r.stats.today.total == 0,
            r.stats.today.keyboard == 0,
            r.stats.today.mouse_single == 0,
            r.stats.today.mouse_move_distance_px == 0,
            crate::daily::spec_empty_maps(r.stats.today),
            r.stats.history@.len() == 0,
            r.settings.enable_keyboard,
            r.settings.enable_mouse_single,
    {
        MeritStorage {
            stats: MeritStats::new(today),
            settings: Settings::new(),
            achievements: AchievementState::new(),
            window_placements: PlacementMap::new(),
            click_heatmap: ClickHeatmapState::new(),
        }
    }

    /// The policy decision for one origin and source under the current
    /// settings.
    pub fn should_count(&self, origin: InputOrigin, source: InputSource) -> (r: bool)
        ensures
            r == spec_should_count(self.settings, origin, source),
    {
        match origin {
            InputOrigin::App => true,
            InputOrigin::Global => match source {
                InputSource::Keyboard => self.settings.enable_keyboard,
                InputSource::MouseSingle => self.settings.enable_mouse_single,
            },
        }
    }

    /// Applies one aggregated merit delta. Returns whether it was applied:
    /// exactly when the policy counts this origin and source and the count
    /// is non-zero. When applied, the all-time total grows by exactly
    /// `count` (saturating), today's record takes the delta — rolling the day
    /// over first if `now` falls on a new day — and the per-key detail maps
    /// fold into today's. When not applied, nothing changes.
    pub fn add_merit_silent(
        &mut self,
        origin: InputOrigin,
        source: InputSource,
        count: u64,
        keyboard: Option<&KeyboardCounts>,
        mouse: Option<&MouseCounts>,
        now: LocalNow,
    ) -> (applied: bool)
        requires
            old(self).wf(),
            now.wf(),
            match keyboard {
                Some(k) => k.wf(),
                None => true,
            },
            match mouse {
                Some(m) => m.wf(),
                None => true,
            },
        ensures
            final(self).wf(),
            applied == (spec_should_count(old(self).settings, origin, source) && count > 0),
            !applied ==> *final(self) == *old(self),
            final(self).settings == old(self).settings,
            final(self).click_heatmap == old(self).click_heatmap,
            final(self).achievements == old(self).achievements,
            applied ==> final(self).stats.total_merit == old(
                self).stats.total_merit.saturating_add(count),
            applied ==> final(self).stats.today.date == now.date,
            applied && old(self).stats.today.date == now.date ==> {
                &&& final(self).stats.today.total == old(self).stats.today.total.saturating_add(
                    count)
                &&& final(self).stats.history@ == old(self).stats.history@
            },
            applied && old(self).stats.today.date != now.date ==> {
                &&& final(self).stats.today.total == count
                &&& (old(self).stats.today.total > 0 ==> final(self).stats.history@
                    == crate::merit_stats::spec_trunc_history(
                    crate::merit_stats::spec_insert_archived(old(self).stats.history@,
                    old(self).stats.today)))
            },
            // Detail maps on the same day: each map either folds in its batch
            // or stays exactly as it was.
            applied && old(self).stats.today.date == now.date ==> {
                let km = spec_batch_map(source, keyboard, 0);
                let um = spec_batch_map(source, keyboard, 1);
                let sm = spec_batch_map(source, keyboard, 2);
                let cm = spec_batch_map(source, keyboard, 3);
                let bm = spec_mouse_batch_map(source, mouse);
                &&& (forall|kk: Seq<char>| final(self).stats.today.key_counts.spec_get(kk) == old(
                    self).stats.today.key_counts.spec_get(kk).saturating_add(spec_map_get(km, kk)))
                &&& (forall|kk: Seq<char>| final(
                    self).stats.today.key_counts_unshifted.spec_get(kk) == old(
                    self).stats.today.key_counts_unshifted.spec_get(kk).saturating_add(
                    spec_map_get(um, kk)))
                &&& (forall|kk: Seq<char>| final(self).stats.today.key_counts_shifted.spec_get(kk)
                    == old(self).stats.today.key_counts_shifted.spec_get(kk).saturating_add(
                    spec_map_get(sm, kk)))
                &&& (forall|kk: Seq<char>| final(self).stats.today.shortcut_counts.spec_get(kk)
                    == old(self).stats.today.shortcut_counts.spec_get(kk).saturating_add(
                    spec_map_get(cm, kk)))
                &&& (forall|kk: Seq<char>| final(self).stats.today.mouse_button_counts.spec_get(
                    kk) == old(self).stats.today.mouse_button_counts.spec_get(kk).saturating_add(
                    spec_map_get(bm, kk)))
                &&& final(self).stats.today.app_input_counts == old(
                    self).stats.today.app_input_counts
                &&& final(self).stats.today.mouse_move_distance_px == old(
                    self).stats.today.mouse_move_distance_px
            },
    {
        if !self.should_count(origin, source) || count == 0 {
            return false;
        }
        self.stats.add_merit(source, count, now);
        match source {
            InputSource::Keyboard => {
                if let Some(k) = keyboard {
                    if let Some(counts) = &k.key_counts {
                        self.stats.today.add_key_counts(counts);
                    }
                    if let Some(counts) = &k.key_counts_unshifted {
                        self.stats.today.add_key_unshifted_counts(counts);
                    }
                    if let Some(counts) = &k.key_counts_shifted {
                        self.stats.today.add_key_shifted_counts(counts);
                    }
                    if let Some(counts) = &k.shortcut_counts {
                        self.stats.today.add_shortcut_counts(counts);
                    }
                }
            },
            InputSource::MouseSingle => {
                if let Some(m) = mouse {
                    if let Some(counts) = &m.mouse_button_counts {
                        self.stats.today.add_mouse_button_counts(counts);
                    }
                }
            },
        }
        true
    }

    /// Attributes one aggregated delta to the foreground application.
    /// Returns whether it was applied: exactly when the policy counts it,
    /// the count is non-zero and an application is known.
    pub fn add_app_merit_silent(
        &mut self,
        origin: InputOrigin,
        source: InputSource,
        count: u64,
        app: Option<&AppContext>,
        now: LocalNow,
    ) -> (applied: bool)
        requires
            old(self).wf(),
            now.wf(),
        ensures
            final(self).wf(),
            applied == (spec_should_count(old(self).settings, origin, source) && count > 0
                && app is Some),
            !applied ==> *final(self) == *old(self),
            final(self).settings == old(self).settings,
            final(self).click_heatmap == old(self).click_heatmap,
            final(self).achievements == old(self).achievements,
            final(self).window_placements == old(self).window_placements,
            final(self).stats.total_merit == old(self).stats.total_merit,
            applied ==> ({
                let prev = if old(self).stats.today.date == now.date {
                    match old(self).stats.today.app_input_counts.spec_get(app->0.id@) {
                        Some(e) => e,
                        None => crate::stats::AppInputStats {
                            name: None,
                            total: 0,
                            keyboard: 0,
                            mouse_single: 0,
                        },
                    }
                } else {
                    crate::stats::AppInputStats { name: None, total: 0, keyboard: 0, mouse_single: 0 }
                };
                match final(self).stats.today.app_input_counts.spec_get(app->0.id@) {
                    Some(e) => e.total == prev.spec_counts_after(source, count).0 && e.keyboard
                        == prev.spec_counts_after(source, count).1 && e.mouse_single
                        == prev.spec_counts_after(source, count).2
                        // The name is remembered only when none was known.
                        && crate::stats::spec_opt_name(e.name) == (if prev.name is Some {
                        crate::stats::spec_opt_name(prev.name)
                    } else {
                        crate::stats::spec_opt_name(app->0.name)
                    }),
                    None => false,
                }
            }),
            // On the same day only the per-application table moves.
            old(self).stats.today.date == now.date ==> {
                &&& final(self).stats.today == (crate::daily::DailyStats {
                    app_input_counts: final(self).stats.today.app_input_counts,
                    ..old(self).stats.today
                })
                &&& final(self).stats.history@ == old(self).stats.history@
            },
    {
        if !self.should_count(origin, source) || count == 0 {
            return false;
        }
        let app = match app {
            Some(a) => a,
            None => {
                return false;
            },
        };
        self.stats.normalize_today(now.date);
        let name = match &app.name {
            Some(n) => Some(n.as_str()),
            None => None,
        };
        self.stats.today.add_app_merit(app.id.as_str(), name, source, count);
        true
    }

    /// Adds mouse travel to today's record, attributed to a display. Applied
    /// exactly when tracking of mouse input is enabled and the distance is
    /// non-zero.
    pub fn add_mouse_move_distance_px_for_display_silent(
        &mut self,
        display_id: Option<&str>,
        px: u64,
        now: LocalNow,
    ) -> (applied: bool)
        requires
            old(self).wf(),
            now.wf(),
        ensures
            final(self).wf(),
            applied == (old(self).settings.enable_mouse_single && px > 0),
            !applied ==> *final(self) == *old(self),
            applied ==> final(self).stats.today.date == now.date,
            final(self).settings == old(self).settings,
            final(self).stats.total_merit == old(self).stats.total_merit,
            final(self).click_heatmap == old(self).click_heatmap,
            final(self).achievements == old(self).achievements,
            final(self).window_placements == old(self).window_placements,
            applied && old(self).stats.today.date == now.date ==> final(
                self).stats.today.mouse_move_distance_px == old(
                self).stats.today.mouse_move_distance_px.saturating_add(px),
            applied && old(self).stats.today.date != now.date ==> final(
                self).stats.today.mouse_move_distance_px == px,
            // A named, non-empty display takes the same pixels in the
            // per-display map; ids are handed in already trimmed.
            applied ==> match display_id {
                Some(id) => id@.len() > 0 ==> final(
                    self).stats.today.mouse_move_distance_px_by_display.spec_get(id@) == (
                if old(self).stats.today.date == now.date {
                    old(self).stats.today.mouse_move_distance_px_by_display.spec_get(id@)
                } else {
                    0u64
                }).saturating_add(px),
                None => true,
            },
            // Every other display's distance stays as it was (zero after a
            // rollover).
            applied ==> forall|k2: Seq<char>| (match display_id {
                Some(id) => k2 != id@,
                None => true,
            }) ==> final(self).stats.today.mouse_move_distance_px_by_display.spec_get(k2) == (
            if old(self).stats.today.date == now.date {
                old(self).stats.today.mouse_move_distance_px_by_display.spec_get(k2)
            } else {
                0u64
            }),
    {
        if px == 0 {
            return false;
        }
        if !self.settings.enable_mouse_single {
            return false;
        }
        self.stats.normalize_today(now.date);
        self.stats.today.add_mouse_move_distance_px_for_display(display_id, px, now.epoch_ms);
        true
    }

    /// Counts one click into the heatmaps; stats and settings stay as they
    /// are.
    pub fn record_click_heatmap_cell(&mut self, display_id: &str, date: DateKey, idx: usize)
        requires
            old(self).wf(),
            date.wf(),
        ensures
            final(self).wf(),
            final(self).stats == old(self).stats,
            final(self).settings == old(self).settings,
            idx < crate::heatmap::CLICK_HEATMAP_BASE_LEN ==> {
                &&& final(self).click_heatmap.displays.spec_grid(display_id@) == old(
                    self).click_heatmap.displays.spec_grid(display_id@).update(idx as int, old(
                    self).click_heatmap.displays.spec_grid(display_id@)[idx as int].saturating_add(
                    1))
                &&& final(self).click_heatmap.displays.spec_total(display_id@) == old(
                    self).click_heatmap.displays.spec_total(display_id@).saturating_add(1)
                &&& (forall|k2: Seq<char>| k2 != display_id@
                    ==> final(self).click_heatmap.displays.spec_get(k2) == old(
                    self).click_heatmap.displays.spec_get(k2))
            },
            // The matching daily grid takes the same single click, unless that
            // day was itself the oldest of an overfull table and was evicted.
            idx < crate::heatmap::CLICK_HEATMAP_BASE_LEN ==> match final(
                self).click_heatmap.daily.spec_get(date) {
                Some(day) => {
                    let prev_grid = match old(self).click_heatmap.daily.spec_get(date) {
                        Some(d) => d.displays.spec_grid(display_id@),
                        None => Seq::new(crate::heatmap::CLICK_HEATMAP_BASE_LEN as nat,
                            |i: int| 0u32),
                    };
                    let prev_total = match old(self).click_heatmap.daily.spec_get(date) {
                        Some(d) => d.displays.spec_total(display_id@),
                        None => 0u64,
                    };
                    &&& day.displays.spec_grid(display_id@) == prev_grid.update(idx as int,
                        prev_grid[idx as int].saturating_add(1))
                    &&& day.displays.spec_total(display_id@) == prev_total.saturating_add(1)
                },
                None => true,
            },
            idx >= crate::heatmap::CLICK_HEATMAP_BASE_LEN ==> *final(self) == *old(self),
    {
        self.click_heatmap.record_click_heatmap_cell(display_id, date, idx);
    }

    /// Clears heatmap data for the given selectors.
    pub fn clear_click_heatmap(&mut self, display_id: Option<&str>, date_key: Option<DateKey>)
        requires
            old(self).wf(),
        ensures
            final(self).wf(),
            final(self).stats == old(self).stats,
            final(self).settings == old(self).settings,
            match (display_id, date_key) {
                (Some(id), Some(d)) => match final(self).click_heatmap.daily.spec_get(d) {
                    Some(day) => day.displays.spec_get(id@) is None,
                    None => true,
                },
                (None, Some(d)) => final(self).click_heatmap.daily.spec_get(d) is None,
                (Some(id), None) => final(self).click_heatmap.displays.spec_get(id@) is None
                    && final(self).click_heatmap.daily == old(self).click_heatmap.daily,
                (None, None) => (forall|k: Seq<char>| final(self).click_heatmap.displays.spec_get(
                    k) is None) && final(self).click_heatmap.daily == old(
                    self).click_heatmap.daily,
            },
    {
        self.click_heatmap.clear_click_heatmap(display_id, date_key);
    }

    /// Replaces the settings; the next counted event sees them.
    pub fn update_settings(&mut self, settings: Settings)
        requires
            old(self).wf(),
        ensures
            final(self).wf(),
            final(self).settings == settings,
            final(self).stats == old(self).stats,
    {
        self.settings = settings;
    }

    /// Remembers where a window sat.
    pub fn update_window_placement(&mut self, label: &str, placement: WindowPlacement)
        requires
            old(self).wf(),
        ensures
            final(self).wf(),
            final(self).window_placements.spec_get(label@) == Some(placement),
            final(self).stats == old(self).stats,
            final(self).settings == old(self).settings,
    {
        self.window_placements.set(label, placement);
    }

    /// Accepts achievement unlocks; see `AchievementState::append_unlocks`.
    pub fn append_achievement_unlocks(&mut self, records: Vec<AchievementUnlockRecord>) -> (accepted:
        usize)
        requires
            old(self).wf(),
        ensures
            final(self).wf(),
            final(self).stats == old(self).stats,
    {
        self.achievements.append_unlocks(records)
    }

    /// Clears the visible achievement history.
    pub fn clear_achievement_history(&mut self)
        requires
            old(self).wf(),
        ensures
            final(self).wf(),
            final(self).achievements.unlock_history@.len() == 0,
            final(self).stats == old(self).stats,
    {
        self.achievements.clear_history();
    }

    /// Drops the archived days and re-derives the total.
    pub fn clear_history(&mut self)
        requires
            old(self).wf(),
        ensures
            final(self).wf(),
            final(self).stats.history@.len() == 0,
    {
        self.stats.clear_history();
    }

    /// Starts over: nothing counted, a fresh day.
    pub fn reset_all(&mut self, today: DateKey)
        requires
            old(self).wf(),
            today.wf(),
        ensures
            final(self).wf(),
            final(self).stats.total_merit == 0,
            final(self).stats.today.date == today,
            final(self).stats.history@.len() == 0,
            final(self).settings == old(self).settings,
    {
        self.stats.reset_all(today);
    }
}

} // verus!
