use bingscape::engine::api_url;
use bingscape::engine::apply_result_message;
use bingscape::engine::finish_cycle;
use bingscape::engine::response_shape_message;
use bingscape::engine::unsupported_platform_message;
use bingscape::engine::wallpaper_script;
use bingscape::engine::Phase;
use bingscape::engine::SyncAction;
use bingscape::engine::SyncCycle;
use bingscape::engine::HTTP_TIMEOUT_SECS;
use bingscape::status::CycleOutcome;
use bingscape::status::SyncError;
use bingscape::status::SyncStatus;

const METADATA_BODY: &[u8] = br#"{"images":[{"url":"/th?id=OHR.Foo_EN-US1_1920x1080.jpg&rf=x"}]}"#;

#[test]
fn full_cycle_success() {
    let (mut cycle, first) = SyncCycle::start(true, "UHD".to_string());
    match first {
        SyncAction::FetchMetadata { url } => assert_eq!(url, api_url()),
        _ => panic!("expected the metadata fetch first"),
    }
    assert_eq!(cycle.phase, Phase::AwaitingMetadata);

    let a = cycle.on_metadata(Ok(METADATA_BODY.to_vec()));
    assert!(matches!(a, SyncAction::EnsureCacheDir));
    assert_eq!(cycle.phase, Phase::AwaitingCacheDir);

    let a = cycle.on_cache_dir(Ok("/tmp/cache".to_string()));
    match a {
        SyncAction::FetchImage { url } => {
            assert_eq!(url, "https://www.bing.com/th?id=OHR.Foo_EN-US1_UHD.jpg&rf=x");
        },
        _ => panic!("expected the image fetch"),
    }

    let a = cycle.on_image(Ok(vec![1u8, 2, 3]));
    match a {
        SyncAction::WriteFile { path, bytes } => {
            assert_eq!(path, "/tmp/cache/Foo_EN-US1_UHD.jpg");
            assert_eq!(bytes, vec![1u8, 2, 3]);
        },
        _ => panic!("expected the file write"),
    }

    let a = cycle.on_write(Ok(()));
    match a {
        SyncAction::ApplyWallpaper { path, all_displays } => {
            assert_eq!(path, "/tmp/cache/Foo_EN-US1_UHD.jpg");
            assert!(all_displays);
        },
        _ => panic!("expected the wallpaper apply"),
    }

    let a = cycle.on_apply(Ok(()));
    let outcome = match a {
        SyncAction::Finish { outcome } => outcome,
        _ => panic!("expected the finish"),
    };
    match &outcome {
        CycleOutcome::Success { url, saved_path, message } => {
            assert_eq!(url, "https://www.bing.com/th?id=OHR.Foo_EN-US1_UHD.jpg&rf=x");
            assert_eq!(saved_path, "/tmp/cache/Foo_EN-US1_UHD.jpg");
            assert_eq!(message, "Applied to all displays");
        },
        CycleOutcome::Failure { .. } => panic!("expected success"),
    }

    let mut status = SyncStatus::empty();
    let r = finish_cycle(&mut status, outcome);
    let returned = r.expect("a successful outcome reports Ok");
    assert_eq!(
        status.last_url,
        Some("https://www.bing.com/th?id=OHR.Foo_EN-US1_UHD.jpg&rf=x".to_string())
    );
    assert_eq!(status.last_saved_path, Some("/tmp/cache/Foo_EN-US1_UHD.jpg".to_string()));
    assert_eq!(status.last_result, Some("Applied to all displays".to_string()));
    assert_eq!(status.last_error, None);
    assert!(status.last_run.is_some());
    assert_eq!(returned.last_url, status.last_url);
    assert_eq!(returned.last_saved_path, status.last_saved_path);
}

#[test]
fn metadata_without_expected_field_is_shape_error() {
    let (mut cycle, _) = SyncCycle::start(false, "UHD".to_string());
    let a = cycle.on_metadata(Ok(br#"{"images":[]}"#.to_vec()));
    match a {
        SyncAction::Finish { outcome: CycleOutcome::Failure { error } } => match error {
            SyncError::ResponseShape { message } => {
                assert_eq!(message, "Unexpected Bing API response");
            },
            _ => panic!("expected the response shape error"),
        },
        _ => panic!("expected a failing finish"),
    }
    assert_eq!(cycle.phase, Phase::Finished);
}

#[test]
fn metadata_that_does_not_parse_is_network_error() {
    let (mut cycle, _) = SyncCycle::start(false, "UHD".to_string());
    let a = cycle.on_metadata(Ok(b"not json at all".to_vec()));
    match a {
        SyncAction::Finish { outcome: CycleOutcome::Failure { error } } => {
            assert!(matches!(error, SyncError::Network { .. }));
        },
        _ => panic!("expected a failing finish"),
    }
}

#[test]
fn metadata_fetch_failure_keeps_its_message() {
    let (mut cycle, _) = SyncCycle::start(false, "UHD".to_string());
    let a = cycle.on_metadata(Err("timed out".to_string()));
    match a {
        SyncAction::Finish { outcome: CycleOutcome::Failure { error } } => match error {
            SyncError::Network { message } => assert_eq!(message, "timed out"),
            _ => panic!("expected a network error"),
        },
        _ => panic!("expected a failing finish"),
    }
}

#[test]
fn failure_preserves_last_success() {
    let mut status = SyncStatus::empty();
    let _ = finish_cycle(
        &mut status,
        CycleOutcome::Success {
            url: "https://www.bing.com/a_UHD.jpg".to_string(),
            saved_path: "/tmp/cache/a_UHD.jpg".to_string(),
            message: "Applied to all displays".to_string(),
        },
    );
    let first_run = status.last_run.clone();

    let r = finish_cycle(
        &mut status,
        CycleOutcome::Failure {
            error: SyncError::Network { message: "connection refused".to_string() },
        },
    );
    match r {
        Err(SyncError::Network { message }) => assert_eq!(message, "connection refused"),
        _ => panic!("a failing outcome reports Err"),
    }
    assert_eq!(status.last_url, Some("https://www.bing.com/a_UHD.jpg".to_string()));
    assert_eq!(status.last_saved_path, Some("/tmp/cache/a_UHD.jpg".to_string()));
    assert_eq!(status.last_result, Some("Applied to all displays".to_string()));
    assert_eq!(status.last_error, Some("connection refused".to_string()));
    assert!(status.last_run.is_some());
    let _ = first_run;
}

#[test]
fn overlapping_cycles_last_writer_wins() {
    let mut status = SyncStatus::empty();
    let _ = finish_cycle(
        &mut status,
        CycleOutcome::Success {
            url: "https://www.bing.com/first.jpg".to_string(),
            saved_path: "/tmp/cache/first.jpg".to_string(),
            message: "Applied to main display".to_string(),
        },
    );
    let _ = finish_cycle(
        &mut status,
        CycleOutcome::Success {
            url: "https://www.bing.com/second.jpg".to_string(),
            saved_path: "/tmp/cache/second.jpg".to_string(),
            message: "Applied to all displays".to_string(),
        },
    );
    assert_eq!(status.last_url, Some("https://www.bing.com/second.jpg".to_string()));
    assert_eq!(status.last_saved_path, Some("/tmp/cache/second.jpg".to_string()));
    assert_eq!(status.last_result, Some("Applied to all displays".to_string()));
    assert_eq!(status.last_error, None);
}

#[test]
fn apply_message_distinguishes_displays() {
    assert_eq!(apply_result_message(true), "Applied to all displays");
    assert_eq!(apply_result_message(false), "Applied to main display");
}

#[test]
fn cycle_uses_its_own_apply_all_flag() {
    let (mut cycle, _) = SyncCycle::start(false, "Native".to_string());
    let _ = cycle.on_metadata(Ok(METADATA_BODY.to_vec()));
    let _ = cycle.on_cache_dir(Ok("/tmp/cache".to_string()));
    let _ = cycle.on_image(Ok(vec![9u8]));
    let a = cycle.on_write(Ok(()));
    match a {
        SyncAction::ApplyWallpaper { all_displays, .. } => assert!(!all_displays),
        _ => panic!("expected the wallpaper apply"),
    }
    let a = cycle.on_apply(Ok(()));
    match a {
        SyncAction::Finish { outcome: CycleOutcome::Success { url, message, .. } } => {
            assert_eq!(url, "https://www.bing.com/th?id=OHR.Foo_EN-US1_1920x1080.jpg&rf=x");
            assert_eq!(message, "Applied to main display");
        },
        _ => panic!("expected success"),
    }
}

#[test]
fn apply_failure_is_applicator_error() {
    let (mut cycle, _) = SyncCycle::start(true, "UHD".to_string());
    let _ = cycle.on_metadata(Ok(METADATA_BODY.to_vec()));
    let _ = cycle.on_cache_dir(Ok("/tmp/cache".to_string()));
    let _ = cycle.on_image(Ok(vec![9u8]));
    let _ = cycle.on_write(Ok(()));
    let a = cycle.on_apply(Err(unsupported_platform_message()));
    match a {
        SyncAction::Finish { outcome: CycleOutcome::Failure { error } } => match error {
            SyncError::Applicator { message } => {
                assert_eq!(message, "Setting wallpaper is implemented for macOS only");
            },
            _ => panic!("expected an applicator error"),
        },
        _ => panic!("expected a failing finish"),
    }
}

#[test]
fn filesystem_failures_are_filesystem_errors() {
    let (mut cycle, _) = SyncCycle::start(true, "UHD".to_string());
    let _ = cycle.on_metadata(Ok(METADATA_BODY.to_vec()));
    let a = cycle.on_cache_dir(Err("read-only".to_string()));
    assert!(matches!(
        a,
        SyncAction::Finish {
            outcome: CycleOutcome::Failure { error: SyncError::Filesystem { .. } }
        }
    ));

    let (mut cycle2, _) = SyncCycle::start(true, "UHD".to_string());
    let _ = cycle2.on_metadata(Ok(METADATA_BODY.to_vec()));
    let _ = cycle2.on_cache_dir(Ok("/tmp/cache".to_string()));
    let _ = cycle2.on_image(Ok(vec![9u8]));
    let a = cycle2.on_write(Err("disk full".to_string()));
    assert!(matches!(
        a,
        SyncAction::Finish {
            outcome: CycleOutcome::Failure { error: SyncError::Filesystem { .. } }
        }
    ));
}

#[test]
fn fixed_endpoint_and_timeout() {
    assert_eq!(
        api_url(),
        "https://www.bing.com/HPImageArchive.aspx?format=js&idx=0&n=1&mkt=en-US"
    );
    assert_eq!(HTTP_TIMEOUT_SECS, 20);
    assert_eq!(response_shape_message(), "Unexpected Bing API response");
}

#[test]
fn wallpaper_script_contents() {
    assert_eq!(
        wallpaper_script("/tmp/cache/a.jpg", true),
        "tell application \"System Events\" to set picture of every desktop to POSIX file \"/tmp/cache/a.jpg\""
    );
    assert_eq!(
        wallpaper_script("/tmp/cache/a.jpg", false),
        "tell application \"System Events\" to set picture of desktop 1 to POSIX file \"/tmp/cache/a.jpg\""
    );
}
