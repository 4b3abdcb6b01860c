use perfwindow::config::{Config, ThemeId};
use perfwindow::theme::{
    effective_theme_id, hex_color, next_theme, os_light_flipped, theme_style, Color, FontFamily,
    OsThemePoll,
};

fn cfg(theme: ThemeId, follow: bool) -> Config {
    Config {
        theme,
        follow_windows: follow,
        ..Config::default()
    }
}

#[test]
fn follow_off_uses_the_configured_theme() {
    let c = cfg(ThemeId::Amber, false);
    assert_eq!(effective_theme_id(&c, true), ThemeId::Amber);
    assert_eq!(effective_theme_id(&c, false), ThemeId::Amber);
}

#[test]
fn follow_on_uses_light_when_os_is_light() {
    let c = cfg(ThemeId::Amber, true);
    assert_eq!(effective_theme_id(&c, true), ThemeId::Light);
}

#[test]
fn follow_on_uses_the_configured_dark_theme_when_os_is_dark() {
    let c = cfg(ThemeId::Phosphor, true);
    assert_eq!(effective_theme_id(&c, false), ThemeId::Phosphor);
}

#[test]
fn follow_on_with_light_configured_stays_light_in_dark_os() {
    let c = cfg(ThemeId::Light, true);
    assert_eq!(effective_theme_id(&c, false), ThemeId::Light);
}

#[test]
fn poll_reads_immediately_on_first_call() {
    let mut poll = OsThemePoll::new();
    let reads = std::cell::Cell::new(0u32);
    let got = poll.poll_at(0, || {
        reads.set(reads.get() + 1);
        true
    });
    assert!(got);
    assert_eq!(reads.get(), 1);
}

#[test]
fn poll_serves_the_cache_within_the_throttle_window() {
    let mut poll = OsThemePoll::new();
    let reads = std::cell::Cell::new(0u32);
    let read = || {
        reads.set(reads.get() + 1);
        true
    };
    assert!(poll.poll_at(0, read));
    assert!(poll.poll_at(1_900, read));
    assert_eq!(reads.get(), 1);
}

#[test]
fn poll_rereads_once_the_interval_elapses() {
    let mut poll = OsThemePoll::new();
    let reads = std::cell::Cell::new(0u32);
    assert!(poll.poll_at(0, || {
        reads.set(reads.get() + 1);
        true
    }));
    assert!(!poll.poll_at(2_000, || {
        reads.set(reads.get() + 1);
        false
    }));
    assert_eq!(reads.get(), 2);
}

#[test]
fn flip_is_reported_only_when_the_os_theme_differs() {
    let mut poll = OsThemePoll::new();
    assert_eq!(os_light_flipped(&mut poll, 0, false, || true), Some(true));
    assert_eq!(os_light_flipped(&mut poll, 100, true, || false), None);
    assert_eq!(os_light_flipped(&mut poll, 2_100, true, || false), Some(false));
}

#[test]
fn theme_chip_cycles_through_four_themes() {
    let mut id = ThemeId::Amber;
    let mut seen = vec![id];
    for _ in 0..4 {
        id = next_theme(id);
        seen.push(id);
    }
    assert_eq!(
        seen,
        vec![
            ThemeId::Amber,
            ThemeId::Slate,
            ThemeId::Phosphor,
            ThemeId::Light,
            ThemeId::Amber
        ]
    );
}

#[test]
fn every_theme_id_resolves() {
    for id in [
        ThemeId::Amber,
        ThemeId::Slate,
        ThemeId::Phosphor,
        ThemeId::Light,
        ThemeId::Synthwave,
        ThemeId::Crimson,
    ] {
        let t = theme_style(id);
        assert_eq!(t.id, id);
        assert_eq!(t.dark, id != ThemeId::Light);
    }
}

#[test]
fn palettes_parse_their_hex_literals() {
    let amber = theme_style(ThemeId::Amber);
    assert_eq!(amber.name, "Amber Mainframe");
    assert_eq!(amber.palette.bg, Color { r: 0x10, g: 0x0b, b: 0x04, a: 255 });
    assert_eq!(amber.palette.accent, Color { r: 0xff, g: 0xa3, b: 0x1a, a: 255 });
    assert_eq!(amber.font_display, FontFamily::PlexMono);
    let light = theme_style(ThemeId::Light);
    assert_eq!(light.palette.panel, Color { r: 255, g: 255, b: 255, a: 255 });
    assert_eq!(light.font_display, FontFamily::ChakraPetch);
}

#[test]
fn hex_color_reads_both_cases() {
    assert_eq!(hex_color("#A0b1C2"), Color { r: 0xa0, g: 0xb1, b: 0xc2, a: 255 });
    assert_eq!(hex_color("#zz0000"), Color { r: 0, g: 0, b: 0, a: 255 });
}

#[test]
fn themes_outside_the_cycle_step_into_it_at_amber() {
    assert_eq!(next_theme(ThemeId::Synthwave), ThemeId::Amber);
    assert_eq!(next_theme(ThemeId::Crimson), ThemeId::Amber);
}

#[test]
fn a_run_of_polls_reads_at_most_once_per_interval() {
    let mut poll = OsThemePoll::new();
    let times = [0u64, 500, 1_999, 2_000, 2_500, 3_999, 4_000, 4_001];
    let mut reads = Vec::new();
    let mut answers = Vec::new();
    for (i, t) in times.iter().enumerate() {
        let reading = i % 2 == 0;
        let mut read = false;
        let got = poll.poll_at(*t, || {
            read = true;
            reading
        });
        if read {
            reads.push(*t);
        }
        answers.push(got);
    }
    assert_eq!(reads, vec![0, 2_000, 4_000]);
    assert_eq!(answers, vec![true, true, true, false, false, false, true, true]);
}

#[test]
fn a_clock_that_goes_back_serves_the_cache() {
    let mut poll = OsThemePoll::new();
    assert!(poll.poll_at(5_000, || true));
    let mut read = false;
    let got = poll.poll_at(1_000, || {
        read = true;
        false
    });
    assert!(got);
    assert!(!read);
    assert!(!poll.poll_at(7_000, || false));
}
