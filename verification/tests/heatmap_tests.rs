use merit_core::datekey::DateKey;
use merit_core::heatmap::CLICK_HEATMAP_BASE_LEN;
use merit_core::heatmap_codec::from_sparse;
use merit_core::heatmap_codec::to_sparse;
use merit_core::heatmap_grid::clamp_grid_dim;
use merit_core::heatmap_grid::get_click_heatmap_grid;
use merit_core::heatmap_grid::grid_max;
use merit_core::heatmap_grid::resample_base_grid;
use merit_core::heatmap_state::ClickHeatmapState;
use merit_core::monitors::cell_index_for_point;
use merit_core::monitors::resolve_monitor;
use merit_core::monitors::CoordinateSpace;
use merit_core::monitors::MapperCache;
use merit_core::monitors::MonitorSnapshot;
use merit_core::storage::MeritStorage;

fn day(y: u32, m: u32, d: u32) -> DateKey {
    DateKey::new(y, m, d).expect("valid date")
}

#[test]
fn n_increments_read_back_as_n_in_both_grids() {
    let d = day(2024, 5, 1);
    let mut state = ClickHeatmapState::new();
    let idx = 1234usize;
    for _ in 0..5 {
        state.record_click_heatmap_cell("main", d, idx);
    }
    let (cell, total) = state.displays.read("main", idx);
    assert_eq!(cell, 5);
    assert_eq!(total, 5);
    let (daily_cell, daily_total) = state.daily.read(d, "main", idx);
    assert_eq!(daily_cell, 5);
    assert_eq!(daily_total, 5);
    // Another cell stays at zero; the grid never sums past the total.
    let (other, _) = state.displays.read("main", 0);
    assert_eq!(other, 0);
}

#[test]
fn storage_records_clicks_in_both_grids() {
    let d = day(2024, 5, 1);
    let mut storage = MeritStorage::new(d);
    for _ in 0..3 {
        storage.record_click_heatmap_cell("main", d, 42);
    }
    let (cell, total) = storage.click_heatmap.displays.read("main", 42);
    assert_eq!((cell, total), (3, 3));
    let (daily_cell, daily_total) = storage.click_heatmap.daily.read(d, "main", 42);
    assert_eq!((daily_cell, daily_total), (3, 3));
    storage.clear_click_heatmap(None, Some(d));
    let (daily_cell, _) = storage.click_heatmap.daily.read(d, "main", 42);
    assert_eq!(daily_cell, 0);
    let (cell, _) = storage.click_heatmap.displays.read("main", 42);
    assert_eq!(cell, 3);
}

#[test]
fn off_grid_clicks_change_nothing() {
    let d = day(2024, 5, 1);
    let mut state = ClickHeatmapState::new();
    state.record_click_heatmap_cell("main", d, CLICK_HEATMAP_BASE_LEN);
    let (_, total) = state.displays.read("main", 0);
    assert_eq!(total, 0);
}

#[test]
fn sparse_round_trip_restores_grid_and_totals() {
    let mut grid = vec![0u32; CLICK_HEATMAP_BASE_LEN];
    grid[0] = 3;
    grid[777] = 1;
    grid[65535] = 42;
    let cells = to_sparse(&grid);
    assert_eq!(cells.len(), 3);
    let back = from_sparse(&cells).expect("in-range cells decode");
    assert_eq!(back, grid);
}

#[test]
fn sparse_decoding_rejects_out_of_range_index() {
    let cells = vec![(70000u32, 3u32)];
    assert!(from_sparse(&cells).is_none());
}

#[test]
fn resampling_preserves_the_total_count() {
    let mut grid = vec![0u32; CLICK_HEATMAP_BASE_LEN];
    grid[0] = 10;
    grid[300] = 7;
    grid[40000] = 5;
    grid[65535] = 2;
    let out = resample_base_grid(&grid, 64, 36);
    assert_eq!(out.len(), 64 * 36);
    let out_sum: u64 = out.iter().sum();
    assert_eq!(out_sum, 24);
    assert_eq!(grid_max(&out) >= 10, true);
}

#[test]
fn grid_query_resamples_the_live_state() {
    let d = day(2024, 5, 1);
    let mut state = ClickHeatmapState::new();
    for _ in 0..4 {
        state.record_click_heatmap_cell("main", d, 0);
    }
    state.record_click_heatmap_cell("main", d, 65535);

    let grid = get_click_heatmap_grid(&state, "main", 64, 36, None);
    assert_eq!(grid.cols, 64);
    assert_eq!(grid.rows, 36);
    assert_eq!(grid.counts.iter().sum::<u64>(), 5);
    assert_eq!(grid.counts[0], 4);
    assert_eq!(grid.max, 4);
    assert_eq!(grid.total_clicks, 5);

    let daily = get_click_heatmap_grid(&state, "main", 0, 0, Some(d));
    assert_eq!((daily.cols, daily.rows), (64, 36));
    assert_eq!(daily.total_clicks, 5);

    let missing = get_click_heatmap_grid(&state, "other", 64, 36, None);
    assert_eq!(missing.total_clicks, 0);
    assert_eq!(missing.max, 0);
}

#[test]
fn clamp_grid_dim_clamps_and_falls_back() {
    assert_eq!(clamp_grid_dim(0, 8, 240, 64), 64);
    assert_eq!(clamp_grid_dim(4, 8, 240, 64), 8);
    assert_eq!(clamp_grid_dim(100, 8, 240, 64), 100);
    assert_eq!(clamp_grid_dim(999, 8, 240, 64), 240);
}

#[test]
fn two_monitor_logical_click_resolves_to_second_physical_point() {
    // Monitor A: logical and physical (0,0) 1920x1080 at scale 1.
    // Monitor B: logical origin (1920,0), physical 3840x2160 at scale 2.
    let monitors = vec![
        MonitorSnapshot {
            id: String::from("A"),
            pos_x: 0,
            pos_y: 0,
            width: 1920,
            height: 1080,
            scale_num: 1,
            scale_den: 1,
        },
        MonitorSnapshot {
            id: String::from("B"),
            pos_x: 3840,
            pos_y: 0,
            width: 3840,
            height: 2160,
            scale_num: 2,
            scale_den: 1,
        },
    ];
    let mut cache = MapperCache::new();
    let hit = resolve_monitor(&monitors, &mut cache, 1, CoordinateSpace::Logical, 2000, 100)
        .expect("the click lands on a monitor");
    assert_eq!(hit.0, 1);
    let m = &monitors[hit.0];
    let (rx, ry) = m.rel_physical_from_point(hit.1, 2000, 100);
    assert_eq!((rx, ry), (160, 200));
    let idx = cell_index_for_point(rx, ry, m.width, m.height);
    // Cell (160*256/3840, 200*256/2160) = (10, 23).
    assert_eq!(idx, 23 * 256 + 10);
}

#[test]
fn misreported_space_falls_back_to_the_other() {
    let monitors = vec![MonitorSnapshot {
        id: String::from("A"),
        pos_x: 0,
        pos_y: 0,
        width: 1920,
        height: 1080,
        scale_num: 1,
        scale_den: 1,
    }];
    let mut cache = MapperCache::new();
    // The physical point is also a valid logical point at scale 1; asking in
    // either space resolves.
    let hit = resolve_monitor(&monitors, &mut cache, 1, CoordinateSpace::Physical, 100, 100);
    assert!(hit.is_some());
    let miss = resolve_monitor(&monitors, &mut cache, 1, CoordinateSpace::Physical, 5000, 100);
    assert!(miss.is_none());
}

#[test]
fn clearing_one_display_keeps_the_others() {
    let d = day(2024, 5, 1);
    let mut state = ClickHeatmapState::new();
    state.record_click_heatmap_cell("a", d, 1);
    state.record_click_heatmap_cell("b", d, 2);
    state.clear_click_heatmap(Some("a"), None);
    let (_, total_a) = state.displays.read("a", 1);
    let (_, total_b) = state.displays.read("b", 2);
    assert_eq!(total_a, 0);
    assert_eq!(total_b, 1);
}
