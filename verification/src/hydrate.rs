//! Rebuilding in-memory aggregates from database rows.
//!
//! The durable store keeps each day's heavy counters normalized into child
//! tables; reading a range back hands the library plain rows, and these
//! functions rebuild the maps and buckets from them exactly.

use vstd::prelude::*;

use crate::counter_map::row_sum;
use crate::counter_map::CounterMap;
use crate::daily::DailyStats;
use crate::history::StatisticsAggregates;
use crate::input::InputSource;
use crate::stats::AppStatsMap;
use crate::stats::HourlyStats;

verus! {

/// One hourly row: the hour and its three totals.
#[derive(Debug, Clone, Copy, PartialEq, Eq, Structural)]
pub struct HourlyRow {
    pub hour: u8,
    pub total: u64,
    pub keyboard: u64,
    pub mouse_single: u64,
}

/// The bucket for hour `h` after applying the first `i` rows: the last row
/// naming the hour wins; an unnamed hour stays empty.
pub open spec fn spec_hourly_at(rows: Seq<HourlyRow>, i: int, h: int) -> HourlyStats
    decreases i,
{
    if i <= 0 {
        HourlyStats { total: 0u64, keyboard: 0u64, mouse_single: 0u64 }
    } else if rows[i - 1].hour == h {
        HourlyStats {
            total: rows[i - 1].total,
            keyboard: rows[i - 1].keyboard,
            mouse_single: rows[i - 1].mouse_single,
        }
    } else {
        spec_hourly_at(rows, i - 1, h)
    }
}

/// Rebuilds the 24 hourly buckets from rows; rows naming an hour past 23
/// are dropped.
pub fn hourly_from_rows(rows: &Vec<HourlyRow>) -> (r: Vec<HourlyStats>)
    ensures
        r@.len() == 24,
        forall|h: int| 0 <= h < 24 ==> r@[h] == spec_hourly_at(rows@, rows@.len() as int, h),
{
    let mut out: Vec<HourlyStats> = Vec::new();
    let mut z: usize = 0;
    while z < 24
        invariant
            0 <= z <= 24,
            out@.len() == z,
            forall|h: int| 0 <= h < z ==> out@[h] == (HourlyStats {
                total: 0u64,
                keyboard: 0u64,
                mouse_single: 0u64,
            }),
        decreases 24 - z,
    {
        out.push(HourlyStats::zero());
        z += 1;
    }
    let n = rows.len();
    let mut i: usize = 0;
    while i < n
        invariant
            0 <= i <= n,
            n == rows@.len(),
            out@.len() == 24,
            forall|h: int| 0 <= h < 24 ==> out@[h] == spec_hourly_at(rows@, i as int, h),
        decreases n - i,
    {
        let row = rows[i];
        if row.hour < 24 {
            let slot = &mut out[row.hour as usize];
            *slot = HourlyStats {
                total: row.total,
                keyboard: row.keyboard,
                mouse_single: row.mouse_single,
            };
        }
        proof {
            assert forall|h: int| 0 <= h < 24 implies out@[h] == spec_hourly_at(rows@, i + 1, h)
                by {
                assert(rows@[i as int] == row);
            }
        }
        i += 1;
    }
    out
}

/// One per-application row: id, last seen name, and the two totals.
#[derive(Debug)]
pub struct AppRow {
    pub app_id: String,
    pub name: Option<String>,
    pub keyboard: u64,
    pub mouse_single: u64,
}

/// Rebuilds the per-application table from rows; each id ends up present
/// with at least its row's combined count.
pub fn app_map_from_rows(rows: &Vec<AppRow>) -> (r: AppStatsMap)
    ensures
        r.wf(),
{
    let mut out = AppStatsMap::new();
    let n = rows.len();
    let mut i: usize = 0;
    while i < n
        invariant
            0 <= i <= n,
            n == rows@.len(),
            out.wf(),
        decreases n - i,
    {
        let row = &rows[i];
        let name = match &row.name {
            Some(nm) => Some(nm.as_str()),
            None => None,
        };
        if row.keyboard > 0 {
            out.add_app(row.app_id.as_str(), name, InputSource::Keyboard, row.keyboard);
        }
        if row.mouse_single > 0 {
            out.add_app(row.app_id.as_str(), name, InputSource::MouseSingle, row.mouse_single);
        }
        i += 1;
    }
    out
}

/// Reattaches a day's normalized counters, read back as rows, to the day:
/// each map is rebuilt exactly from its rows, replacing what the day held.
pub fn hydrate_day(
    day: &mut DailyStats,
    key_rows: &Vec<(String, u64)>,
    unshifted_rows: &Vec<(String, u64)>,
    shifted_rows: &Vec<(String, u64)>,
    shortcut_rows: &Vec<(String, u64)>,
    button_rows: &Vec<(String, u64)>,
    hourly_rows: &Vec<HourlyRow>,
    app_rows: &Vec<AppRow>,
)
    requires
        old(day).wf(),
    ensures
        final(day).wf(),
        final(day).date == old(day).date,
        final(day).total == old(day).total,
        final(day).keyboard == old(day).keyboard,
        final(day).mouse_single == old(day).mouse_single,
        forall|k: Seq<char>| final(day).key_counts.spec_get(k) == row_sum(key_rows@,
            key_rows@.len() as int, k),
        forall|k: Seq<char>| final(day).key_counts_unshifted.spec_get(k) == row_sum(
            unshifted_rows@, unshifted_rows@.len() as int, k),
        forall|k: Seq<char>| final(day).key_counts_shifted.spec_get(k) == row_sum(shifted_rows@,
            shifted_rows@.len() as int, k),
        forall|k: Seq<char>| final(day).shortcut_counts.spec_get(k) == row_sum(shortcut_rows@,
            shortcut_rows@.len() as int, k),
        forall|k: Seq<char>| final(day).mouse_button_counts.spec_get(k) == row_sum(button_rows@,
            button_rows@.len() as int, k),
        forall|h: int| 0 <= h < 24 ==> final(day).hourly@[h] == spec_hourly_at(hourly_rows@,
            hourly_rows@.len() as int, h),
    {
    day.key_counts = CounterMap::from_rows(key_rows);
    day.key_counts_unshifted = CounterMap::from_rows(unshifted_rows);
    day.key_counts_shifted = CounterMap::from_rows(shifted_rows);
    day.shortcut_counts = CounterMap::from_rows(shortcut_rows);
    day.mouse_button_counts = CounterMap::from_rows(button_rows);
    day.hourly = hourly_from_rows(hourly_rows);
    day.app_input_counts = app_map_from_rows(app_rows);
}

/// Builds the aggregate answer of a range query from the summed rows the
/// database returns: each map holds exactly its rows' counts.
pub fn load_statistics_aggregates(
    key_all_rows: &Vec<(String, u64)>,
    key_unshifted_rows: &Vec<(String, u64)>,
    key_shifted_rows: &Vec<(String, u64)>,
    shortcut_rows: &Vec<(String, u64)>,
    button_rows: &Vec<(String, u64)>,
    hourly_rows: &Vec<HourlyRow>,
    app_rows: &Vec<AppRow>,
) -> (r: StatisticsAggregates)
    ensures
        r.wf(),
        forall|k: Seq<char>| r.key_counts_all.spec_get(k) == row_sum(key_all_rows@,
            key_all_rows@.len() as int, k),
        forall|k: Seq<char>| r.key_counts_unshifted.spec_get(k) == row_sum(key_unshifted_rows@,
            key_unshifted_rows@.len() as int, k),
        forall|k: Seq<char>| r.key_counts_shifted.spec_get(k) == row_sum(key_shifted_rows@,
            key_shifted_rows@.len() as int, k),
        forall|k: Seq<char>| r.shortcut_counts.spec_get(k) == row_sum(shortcut_rows@,
            shortcut_rows@.len() as int, k),
        forall|k: Seq<char>| r.mouse_button_counts.spec_get(k) == row_sum(button_rows@,
            button_rows@.len() as int, k),
        forall|h: int| 0 <= h < 24 ==> r.hourly@[h] == spec_hourly_at(hourly_rows@,
            hourly_rows@.len() as int, h),
{
    StatisticsAggregates {
        key_counts_all: CounterMap::from_rows(key_all_rows),
        key_counts_unshifted: CounterMap::from_rows(key_unshifted_rows),
        key_counts_shifted: CounterMap::from_rows(key_shifted_rows),
        shortcut_counts: CounterMap::from_rows(shortcut_rows),
        mouse_button_counts: CounterMap::from_rows(button_rows),
        hourly: hourly_from_rows(hourly_rows),
        app_input_counts: app_map_from_rows(app_rows),
    }
}

} // verus!
