use perfwindow::update::{
    copy_step, download_verdict, format_checked_at, format_stamp, is_newer, ttl,
    update_banner_visible, Asset, Cache, CopyEvent, CopyNext, DownloadError, DownloadProgress,
    FetchError, GitHubReleaseSource, LocalStamp, MockReleaseSource, Release, Span, UpdateState,
    WallTime, INSTALLER_ASSET_NAME,
};

fn sample() -> Cache {
    Cache {
        checked_at: WallTime::from_unix_secs(1_700_000_000),
        latest_tag: "v0.2.0".into(),
        latest_name: "PerfWindow 0.2.0".into(),
        latest_body: "* x\n* y".into(),
        latest_asset_url: "https://example.com/PerfWindow-Setup.exe".into(),
        latest_asset_size: 1234,
    }
}

#[test]
fn ttl_expires_after_six_hours() {
    let c = sample();
    let just_under = c.checked_at.plus(Span::from_secs(6 * 3600 - 1));
    let just_over = c.checked_at.plus(Span::from_secs(6 * 3600 + 1));
    assert!(!c.is_stale(just_under, ttl()));
    assert!(c.is_stale(just_over, ttl()));
}

#[test]
fn future_checked_at_is_stale() {
    let c = sample();
    let before_check = c.checked_at.minus(Span::from_secs(3600));
    assert!(c.is_stale(before_check, ttl()));
}

#[test]
fn cache_is_fresh_at_the_check_instant_and_at_the_edge() {
    let c = sample();
    assert!(!c.is_stale(c.checked_at, ttl()));
    assert!(!c.is_stale(c.checked_at.plus(ttl()), ttl()));
}

#[test]
fn persisted_seconds_round_trip() {
    let t = WallTime::from_persisted_secs(1_700_000_000);
    assert_eq!(t, WallTime::from_unix_secs(1_700_000_000));
    assert_eq!(t.persisted_secs(), 1_700_000_000);
    assert_eq!(WallTime::from_persisted_secs(-7).persisted_secs(), 0);
}

fn dummy_release() -> Release {
    Release {
        tag_name: "v0.2.6".to_string(),
        name: "PerfWindow 0.2.6".to_string(),
        html_url: "https://example/v0.2.6".to_string(),
        body: "notes".to_string(),
        assets: vec![],
    }
}

#[test]
fn default_state_is_idle() {
    let s = UpdateState::default();
    assert!(matches!(s, UpdateState::Idle));
}

#[test]
fn idle_advances_to_checking_on_check_start() {
    let s = UpdateState::Checking;
    assert!(matches!(s, UpdateState::Checking));
}

#[test]
fn no_update_carries_a_checked_at_timestamp() {
    let t = WallTime::from_unix_secs(1_700_000_123);
    let s = UpdateState::NoUpdate { checked_at: t };
    match s {
        UpdateState::NoUpdate { checked_at } => assert_eq!(checked_at, t),
        _ => panic!("wrong variant"),
    }
}

#[test]
fn available_carries_release_and_checked_at() {
    let t = WallTime::from_unix_secs(1_700_000_123);
    let r = dummy_release();
    let s = UpdateState::Available {
        release: r.clone(),
        checked_at: t,
    };
    match s {
        UpdateState::Available { release, checked_at } => {
            assert_eq!(release.tag_name, r.tag_name);
            assert_eq!(checked_at, t);
        }
        _ => panic!("wrong variant"),
    }
}

#[test]
fn failed_carries_reason_and_checked_at() {
    let t = WallTime::from_unix_secs(1_700_000_123);
    let s = UpdateState::Failed {
        checked_at: t,
        reason: "network".to_string(),
    };
    match s {
        UpdateState::Failed { checked_at, reason } => {
            assert_eq!(checked_at, t);
            assert_eq!(reason, "network");
        }
        _ => panic!("wrong variant"),
    }
}

#[test]
fn checked_at_is_none_until_a_check_completes() {
    let t = WallTime::from_unix_secs(5);
    assert_eq!(UpdateState::Idle.checked_at(), None);
    assert_eq!(UpdateState::Checking.checked_at(), None);
    assert_eq!(UpdateState::NoUpdate { checked_at: t }.checked_at(), Some(t));
}

#[test]
fn update_banner_shows_only_for_an_undismissed_update() {
    let avail = UpdateState::Available {
        release: dummy_release(),
        checked_at: WallTime::from_unix_secs(1),
    };
    assert!(update_banner_visible(false, &avail));
    assert!(!update_banner_visible(true, &avail));
    assert!(!update_banner_visible(false, &UpdateState::Idle));
}

#[test]
fn settings_line_describes_the_last_check() {
    let local = LocalStamp { year: 2026, month: 5, day: 3, hour: 9, minute: 7 };
    assert_eq!(format_stamp(local), "2026-05-03 09:07");
    assert_eq!(format_checked_at(&UpdateState::Idle, local), "never");
    assert_eq!(format_checked_at(&UpdateState::Checking, local), "checking now\u{2026}");
    let failed = UpdateState::Failed {
        reason: "network".into(),
        checked_at: WallTime::from_unix_secs(1),
    };
    assert_eq!(format_checked_at(&failed, local), "2026-05-03 09:07 (failed: network)");
}

#[test]
fn equal_versions_are_not_newer() {
    assert!(!is_newer("0.1.0", "v0.1.0").unwrap());
}

#[test]
fn patch_bump_is_newer() {
    assert!(is_newer("0.1.0", "v0.1.1").unwrap());
}

#[test]
fn minor_bump_is_newer() {
    assert!(is_newer("0.1.0", "v0.2.0").unwrap());
}

#[test]
fn major_bump_is_newer() {
    assert!(is_newer("0.1.0", "v1.0.0").unwrap());
}

#[test]
fn older_release_is_not_newer() {
    assert!(!is_newer("0.2.0", "v0.1.9").unwrap());
}

#[test]
fn release_candidate_precedes_release() {
    assert!(is_newer("1.0.0-rc.1", "v1.0.0").unwrap());
    assert!(!is_newer("1.0.0", "v1.0.0-rc.1").unwrap());
}

#[test]
fn malformed_inputs_return_err() {
    assert!(is_newer("not a version", "v0.1.0").is_err());
    assert!(is_newer("0.1.0", "totally-bogus").is_err());
    assert!(is_newer("0.1.0", "0.1.0").is_err(), "missing leading v");
}

#[test]
fn missing_prefix_error_names_the_tag() {
    assert_eq!(
        is_newer("0.1.0", "0.1.0").unwrap_err(),
        "release tag missing 'v' prefix: 0.1.0"
    );
    assert_eq!(is_newer("0.1.0", "").unwrap_err(), "release tag missing 'v' prefix: ");
}

#[test]
fn parse_errors_carry_the_semver_message() {
    let err = is_newer("0.1.0", "v1.0").unwrap_err();
    assert_eq!(err, semver::Version::parse("1.0").unwrap_err().to_string());
    let err = is_newer("x", "v1.0.0").unwrap_err();
    assert_eq!(err, semver::Version::parse("x").unwrap_err().to_string());
}

fn release_with_assets(names: &[&str]) -> Release {
    Release {
        tag_name: "v0.2.0".into(),
        name: "x".into(),
        body: "".into(),
        html_url: "https://example.com".into(),
        assets: names
            .iter()
            .enumerate()
            .map(|(i, n)| Asset {
                name: n.to_string(),
                browser_download_url: format!("https://example.com/{n}"),
                size: i as u64 + 1,
            })
            .collect(),
    }
}

#[test]
fn missing_installer_asset_returns_none_from_helper() {
    let r = release_with_assets(&["checksums.txt"]);
    assert!(r.installer_asset().is_none());
}

#[test]
fn installer_asset_is_the_first_with_the_installer_name() {
    let r = release_with_assets(&["notes.txt", INSTALLER_ASSET_NAME, INSTALLER_ASSET_NAME]);
    let a = r.installer_asset().expect("installer present");
    assert_eq!(a.size, 2);
    assert!(a.browser_download_url.ends_with("/PerfWindow-Setup.exe"));
}

#[test]
fn mock_returns_the_configured_release() {
    let json = r#"{
            "tag_name": "v0.9.0",
            "name": "x",
            "body": "",
            "html_url": "https://example.com",
            "assets": [{
                "name": "PerfWindow-Setup.exe",
                "browser_download_url": "https://example.com/installer.exe",
                "size": 1
            }]
        }"#;
    let source = MockReleaseSource::with_release(json);
    let body = source.fetch_body().expect("mock returns the release");
    let value: serde_json::Value = serde_json::from_str(&body).expect("mock body is JSON");
    assert_eq!(value["tag_name"].as_str(), Some("v0.9.0"));
}

#[test]
fn mock_can_simulate_failure() {
    let source = MockReleaseSource::failing("network unreachable");
    let err = source.fetch_body().unwrap_err();
    assert!(err.message().contains("network unreachable"));
}

#[test]
fn github_source_addresses_the_latest_release() {
    let s = GitHubReleaseSource::new("octo", "perf");
    assert_eq!(s.latest_url(), "https://api.github.com/repos/octo/perf/releases/latest");
    assert_eq!(s.user_agent, "PerfWindow/0.9.5");
}

#[test]
fn http_failures_map_to_fetch_errors() {
    assert!(matches!(FetchError::from_http_failure(None, false), FetchError::Network));
    assert!(matches!(FetchError::from_http_failure(Some(403), true), FetchError::RateLimited));
    assert!(matches!(FetchError::from_http_failure(Some(403), false), FetchError::HttpStatus(403)));
    assert!(matches!(FetchError::from_http_failure(Some(404), true), FetchError::HttpStatus(404)));
    assert_eq!(FetchError::HttpStatus(502).message(), "GitHub returned status 502");
    assert_eq!(FetchError::Malformed.message(), "response was not valid release JSON");
}

#[test]
fn download_errors_have_messages() {
    assert_eq!(DownloadError::Network("reset".into()).message(), "network error: reset");
    assert_eq!(DownloadError::HttpStatus(404).message(), "HTTP status 404");
    assert_eq!(DownloadError::Cancelled.message(), "cancelled");
    assert_eq!(DownloadProgress::default(), DownloadProgress { bytes: 0, total: 0 });
}

#[test]
fn finalize_keeps_the_file_when_byte_count_matches() {
    assert!(download_verdict(Ok(16), 16).is_ok());
}

#[test]
fn finalize_deletes_the_file_on_size_mismatch() {
    assert!(matches!(download_verdict(Ok(8), 16), Err(DownloadError::SizeMismatch)));
}

#[test]
fn finalize_deletes_the_file_on_cancel() {
    assert!(matches!(
        download_verdict(Err(DownloadError::Cancelled), 16),
        Err(DownloadError::Cancelled)
    ));
}

#[test]
fn finalize_deletes_the_file_on_error() {
    assert!(matches!(
        download_verdict(Err(DownloadError::Network("reset".into())), 16),
        Err(DownloadError::Network(_))
    ));
}

#[test]
fn finalize_trusts_the_local_counter_over_file_length() {
    assert!(matches!(download_verdict(Ok(8), 16), Err(DownloadError::SizeMismatch)));
}

/// Drive the copy loop's decisions over a body delivered in chunks.
fn run_copy(body_len: u64, chunk: u64, cancel_after: Option<usize>) -> Result<u64, DownloadError> {
    let mut bytes = 0u64;
    let mut rounds = 0usize;
    loop {
        let event = if cancel_after == Some(rounds) {
            CopyEvent::Cancelled
        } else if bytes == body_len {
            CopyEvent::EndOfStream
        } else {
            CopyEvent::Chunk(chunk.min(body_len - bytes))
        };
        match copy_step(bytes, event) {
            CopyNext::Continue(b) => bytes = b,
            CopyNext::Done(r) => return r,
        }
        rounds += 1;
    }
}

#[test]
fn copies_all_bytes_and_reports_progress() {
    assert_eq!(run_copy(200_000, 64 * 1024, None).unwrap(), 200_000);
}

#[test]
fn cancellation_aborts_mid_stream() {
    assert!(matches!(run_copy(1_000_000, 64 * 1024, Some(1)), Err(DownloadError::Cancelled)));
}

#[test]
fn copy_failures_map_to_download_errors() {
    assert!(matches!(
        copy_step(5, CopyEvent::ReadFailed("reset".into())),
        CopyNext::Done(Err(DownloadError::Network(m))) if m == "reset"
    ));
    assert!(matches!(
        copy_step(5, CopyEvent::WriteFailed("disk full".into())),
        CopyNext::Done(Err(DownloadError::Io(m))) if m == "disk full"
    ));
}

#[test]
fn finished_check_reports_available_no_update_or_failed() {
    let now = WallTime::from_unix_secs(1_800_000_000);
    let mut r = dummy_release();
    r.tag_name = "v9.0.0".into();
    assert!(matches!(
        perfwindow::update::state_after_check("0.9.5", r.clone(), now),
        UpdateState::Available { checked_at, .. } if checked_at == now
    ));
    r.tag_name = "v0.9.5".into();
    assert!(matches!(
        perfwindow::update::state_after_check("0.9.5", r.clone(), now),
        UpdateState::NoUpdate { checked_at } if checked_at == now
    ));
    r.tag_name = "9.0.0".into();
    assert!(matches!(
        perfwindow::update::state_after_check("0.9.5", r, now),
        UpdateState::Failed { reason, .. } if reason == "release tag missing 'v' prefix: 9.0.0"
    ));
}

#[test]
fn a_fresh_cache_answers_unless_forced() {
    let c = sample();
    let soon = c.checked_at.plus(Span::from_secs(60));
    assert!(perfwindow::update::answer_from_cache(false, Some(&c), soon, ttl()));
    assert!(!perfwindow::update::answer_from_cache(true, Some(&c), soon, ttl()));
    assert!(!perfwindow::update::answer_from_cache(false, None, soon, ttl()));
    let late = c.checked_at.plus(Span::from_secs(7 * 3600));
    assert!(!perfwindow::update::answer_from_cache(false, Some(&c), late, ttl()));
}

#[test]
fn cache_records_the_installer_and_gives_it_back() {
    let now = WallTime::from_unix_secs(1_700_000_000);
    assert!(Cache::from_release(&release_with_assets(&["notes.txt"]), now).is_none());
    let r = release_with_assets(&["notes.txt", INSTALLER_ASSET_NAME]);
    let c = Cache::from_release(&r, now).expect("installer present");
    assert_eq!(c.checked_at, now);
    assert_eq!(c.latest_asset_size, 2);
    let back = c.release();
    assert_eq!(back.tag_name, "v0.2.0");
    assert_eq!(back.installer_asset().unwrap().browser_download_url, c.latest_asset_url);
}

#[test]
fn cache_records_the_first_installer_asset() {
    let now = WallTime::from_unix_secs(1_700_000_000);
    let r = release_with_assets(&[INSTALLER_ASSET_NAME, "notes.txt", INSTALLER_ASSET_NAME]);
    let c = Cache::from_release(&r, now).expect("installer present");
    assert_eq!(c.latest_asset_size, 1);
}
