//! User policy the counting core reads on every increment, plus the window
//! and UI preferences it carries for the rest of the application.

use vstd::prelude::*;

verus! {

/// User settings. The counting policy lives in `enable_keyboard` and
/// `enable_mouse_single`; the rest is carried for the UI. Changes apply to
/// the next counted event.
#[derive(Debug)]
pub struct Settings {
    pub app_locale: String,
    pub enable_keyboard: bool,
    pub enable_mouse_single: bool,
    pub always_on_top: bool,
    pub window_pass_through: bool,
    pub show_taskbar_icon: bool,
    pub launch_on_startup: bool,
    pub wooden_fish_skin: String,
    pub keyboard_layout: String,
    pub keyboard_piano_enabled: bool,
    pub window_scale: u32,
    pub heatmap_levels: u8,
    pub click_heatmap_grid_cols: u32,
    pub click_heatmap_grid_rows: u32,
    pub lock_window_position: bool,
    pub dock_margin_px: u32,
    pub auto_fade_enabled: bool,
    pub auto_fade_delay_ms: u32,
    pub auto_fade_duration_ms: u32,
    pub drag_hold_ms: u32,
    pub merit_pop_label: String,
    pub custom_statistics_range: String,
    pub shortcut_toggle_main: Option<String>,
    pub shortcut_toggle_settings: Option<String>,
    pub shortcut_toggle_listening: Option<String>,
    pub shortcut_toggle_window_pass_through: Option<String>,
    pub shortcut_toggle_always_on_top: Option<String>,
    pub shortcut_open_custom_statistics: Option<String>,
    pub shortcut_close_custom_statistics: Option<String>,
    pub keyboard_heatmap_share_hide_numbers: bool,
    pub keyboard_heatmap_share_hide_keys: bool,
    pub keyboard_heatmap_share_show_merit_value: bool,
}

impl Settings {
    /// The out-of-the-box policy: both modalities counted.
    pub fn new() -> (r: Settings)
        ensures
            r.enable_keyboard,
            r.enable_mouse_single,
            r.always_on_top,
            !r.window_pass_through,
            !r.show_taskbar_icon,
            !r.launch_on_startup,
            !r.keyboard_piano_enabled,
            r.window_scale == 100,
            r.heatmap_levels == 10,
            r.click_heatmap_grid_cols == 64,
            r.click_heatmap_grid_rows == 36,
            !r.lock_window_position,
            r.dock_margin_px == 0,
            !r.auto_fade_enabled,
            r.auto_fade_delay_ms == 800,
            r.auto_fade_duration_ms == 180,
            r.drag_hold_ms == 0,
            r.app_locale@ == "system"@,
            r.wooden_fish_skin@ == "rosewood"@,
            r.keyboard_layout@ == "tkl_80"@,
            r.custom_statistics_range@ == "today"@,
            r.shortcut_toggle_main is None,
            r.shortcut_toggle_settings is None,
            r.shortcut_toggle_listening is None,
            r.shortcut_toggle_window_pass_through is None,
            r.shortcut_toggle_always_on_top is None,
            r.shortcut_open_custom_statistics is None,
            r.shortcut_close_custom_statistics is None,
            r.keyboard_heatmap_share_hide_numbers,
            r.keyboard_heatmap_share_hide_keys,
            !r.keyboard_heatmap_share_show_merit_value,
    {
        Settings {
            app_locale: String::from_str("system"),
            enable_keyboard: true,
            enable_mouse_single: true,
            always_on_top: true,
            window_pass_through: false,
            show_taskbar_icon: false,
            launch_on_startup: false,
            wooden_fish_skin: String::from_str("rosewood"),
            keyboard_layout: String::from_str("tkl_80"),
            keyboard_piano_enabled: false,
            window_scale: 100,
            heatmap_levels: 10,
            click_heatmap_grid_cols: 64,
            click_heatmap_grid_rows: 36,
            lock_window_position: false,
            dock_margin_px: 0,
            auto_fade_enabled: false,
            auto_fade_delay_ms: 800,
            auto_fade_duration_ms: 180,
            drag_hold_ms: 0,
            merit_pop_label: String::from_str("merit"),
            custom_statistics_range: String::from_str("today"),
            shortcut_toggle_main: None,
            shortcut_toggle_settings: None,
            shortcut_toggle_listening: None,
            shortcut_toggle_window_pass_through: None,
            shortcut_toggle_always_on_top: None,
            shortcut_open_custom_statistics: None,
            shortcut_close_custom_statistics: None,
            keyboard_heatmap_share_hide_numbers: true,
            keyboard_heatmap_share_hide_keys: true,
            keyboard_heatmap_share_show_merit_value: false,
        }
    }
}

} // verus!
