use perfwindow::config::{Config, RefreshRate, ThemeId};
use perfwindow::crash::seh_code_name;
use perfwindow::format::{
    format_link, format_power_on_hours, format_time_remaining, format_uptime, identity_line,
    kind_label, letter_spaced, BoardIdentity, TempUnit,
};

#[test]
fn refresh_rate_maps_to_milliseconds() {
    assert_eq!(RefreshRate::Ms500.as_millis(), 500);
    assert_eq!(RefreshRate::S1.as_millis(), 1000);
    assert_eq!(RefreshRate::S5.as_millis(), 5000);
}

#[test]
fn refresh_rates_are_listed_fastest_first_with_labels() {
    let labels: Vec<&str> = RefreshRate::ALL.iter().map(|r| r.label()).collect();
    assert_eq!(labels, vec!["0.5 s", "1 s", "2 s", "5 s"]);
    let ms: Vec<u32> = RefreshRate::ALL.iter().map(|r| r.as_millis()).collect();
    assert_eq!(ms, vec![500, 1000, 2000, 5000]);
}

#[test]
fn default_config_matches_the_documented_defaults() {
    let c = Config::default();
    assert_eq!(c.theme, ThemeId::Slate);
    assert!(!c.follow_windows);
    assert_eq!(c.unit, TempUnit::Celsius);
    assert!(c.check_updates_on_startup);
    assert!(!c.cpu_heat_map);
    assert!(!c.always_on_top);
}

#[test]
fn formats_link_speed() {
    assert_eq!(format_link(Some(1_000_000_000)), "1 Gbps");
    assert_eq!(format_link(Some(2_500_000_000)), "2 Gbps");
    assert_eq!(format_link(Some(100_000_000)), "100 Mbps");
    assert_eq!(format_link(Some(10_000_000)), "10 Mbps");
    assert_eq!(format_link(None), "—");
}

#[test]
fn sub_megabit_links_render_as_em_dash() {
    assert_eq!(format_link(Some(999_999)), "—");
    assert_eq!(format_link(Some(-5)), "—");
}

#[test]
fn letter_spaces_with_thin_spaces() {
    assert_eq!(letter_spaced("AB"), "A\u{2009}B");
    assert_eq!(letter_spaced("X"), "X");
    assert_eq!(letter_spaced(""), "");
}

#[test]
fn letter_spacing_inserts_one_gap_between_each_pair() {
    let s = letter_spaced("CPU");
    assert_eq!(s, "C\u{2009}P\u{2009}U");
    assert_eq!(s.chars().count(), 2 * 3 - 1);
}

#[test]
fn formats_uptime_in_human_terms() {
    assert_eq!(format_uptime(0), "<1m");
    assert_eq!(format_uptime(30), "<1m");
    assert_eq!(format_uptime(60), "1m");
    assert_eq!(format_uptime(45 * 60), "45m");
    assert_eq!(format_uptime(3 * 3600), "3h 0m");
    assert_eq!(format_uptime(3 * 3600 + 25 * 60), "3h 25m");
    assert_eq!(format_uptime(4 * 86_400 + 14 * 3600), "4d 14h");
    assert_eq!(format_uptime(-5), "<1m");
}

#[test]
fn formats_power_on_hours_with_a_breakdown() {
    assert_eq!(format_power_on_hours(5057), "5057 h (\u{2248} 0 y 211 d)");
    assert_eq!(format_power_on_hours(24 * 400), "9600 h (\u{2248} 1 y 35 d)");
    assert_eq!(format_power_on_hours(0), "0 h");
    assert_eq!(format_power_on_hours(-3), "-3 h");
}

#[test]
fn power_on_days_round_to_the_nearest_day() {
    assert_eq!(format_power_on_hours(11), "11 h (\u{2248} 0 y 0 d)");
    assert_eq!(format_power_on_hours(12), "12 h (\u{2248} 0 y 1 d)");
    assert_eq!(format_power_on_hours(24 * 365 - 1), "8759 h (\u{2248} 1 y 0 d)");
}

#[test]
fn kind_labels_restore_conventional_casing() {
    assert_eq!(kind_label("nvme"), "NVMe");
    assert_eq!(kind_label("NVME"), "NVMe");
    assert_eq!(kind_label("ssd"), "SSD");
    assert_eq!(kind_label("hdd"), "HDD");
    assert_eq!(kind_label("usb"), "USB");
    assert_eq!(kind_label("straße"), "STRASSE");
}

fn identity_board(name: Option<&str>, version: Option<&str>, date: Option<&str>) -> BoardIdentity {
    BoardIdentity {
        name: name.map(|s| s.to_string()),
        bios_version: version.map(|s| s.to_string()),
        bios_date: date.map(|s| s.to_string()),
    }
}

#[test]
fn identity_line_combines_board_and_bios() {
    let board = identity_board(Some("ASUS FX507VI"), Some("16.0302"), Some("2023-11-15"));
    assert_eq!(
        identity_line(&board).as_deref(),
        Some("ASUS FX507VI \u{00b7} BIOS 16.0302 (2023-11-15)")
    );
}

#[test]
fn identity_line_skips_absent_parts() {
    assert_eq!(
        identity_line(&identity_board(Some("ASUS FX507VI"), None, None)).as_deref(),
        Some("ASUS FX507VI")
    );
    assert_eq!(
        identity_line(&identity_board(None, Some("16.0302"), None)).as_deref(),
        Some("BIOS 16.0302")
    );
    assert_eq!(
        identity_line(&identity_board(Some("X"), None, Some("2023-11-15"))).as_deref(),
        Some("X")
    );
}

#[test]
fn identity_line_is_none_when_empty_or_blank() {
    assert!(identity_line(&identity_board(None, None, None)).is_none());
    assert!(identity_line(&identity_board(Some("  "), Some(""), None)).is_none());
}

#[test]
fn identity_line_trims_each_part() {
    assert_eq!(
        identity_line(&identity_board(Some("  B650 "), Some(" 1.2\t"), Some(" 2024 "))).as_deref(),
        Some("B650 \u{00b7} BIOS 1.2 (2024)")
    );
}

/// Discharging as the battery panel decides it from the charge rate.
fn discharging(rate_w: Option<f64>) -> bool {
    matches!(rate_w, Some(w) if w.is_finite() && w < -0.05)
}

#[test]
fn time_remaining_shown_only_while_discharging() {
    assert_eq!(
        format_time_remaining(Some(3 * 3600 + 25 * 60), discharging(Some(-10.0))),
        "3h 25m"
    );
    assert_eq!(format_time_remaining(Some(900), discharging(Some(20.0))), "—");
    assert_eq!(format_time_remaining(Some(900), discharging(Some(0.0))), "—");
    assert_eq!(format_time_remaining(None, discharging(None)), "—");
}

#[test]
fn time_remaining_needs_a_positive_estimate() {
    assert_eq!(format_time_remaining(Some(0), true), "—");
    assert_eq!(format_time_remaining(Some(-60), true), "—");
}

#[test]
fn seh_codes_have_names() {
    assert_eq!(seh_code_name(0xC000_0005), "ACCESS_VIOLATION");
    assert_eq!(seh_code_name(0xC000_00FD), "STACK_OVERFLOW");
    assert_eq!(seh_code_name(0xE06D_7363), "C++ exception (MSVC throw)");
    assert_eq!(seh_code_name(0x1234), "<unknown>");
}

/// The Wi-Fi readings as the network panel hands them over: finite
/// readings rounded to whole numbers, the rest absent.
fn wifi(ssid: Option<&str>, signal: Option<f64>, rate: Option<f64>) -> Option<String> {
    let whole = |x: Option<f64>| x.filter(|v| v.is_finite()).map(|v| v.round() as i64);
    perfwindow::format::wifi_value(ssid, whole(signal), whole(rate))
}

#[test]
fn wifi_value_joins_present_parts() {
    assert_eq!(
        wifi(Some("HomeNet"), Some(87.4), Some(866.7)).as_deref(),
        Some("HomeNet \u{00b7} 87 % \u{00b7} 867 Mbps")
    );
}

#[test]
fn wifi_value_skips_absent_and_non_finite_parts() {
    assert_eq!(
        wifi(Some("  "), Some(f64::NAN), Some(120.0)).as_deref(),
        Some("120 Mbps")
    );
}

#[test]
fn wifi_value_is_none_when_nothing_is_displayable() {
    assert_eq!(wifi(None, None, None), None);
    assert_eq!(wifi(Some(""), Some(f64::INFINITY), None), None);
}
