use ghostcord_lite::cache::resolve_release;
use ghostcord_lite::{
    AppError, AssetRole, CacheAction, CacheEvent, CacheStep, CachedAssets, GithubAsset,
    GithubRelease, VencordManifest,
};

fn release(tag: &str) -> GithubRelease {
    GithubRelease {
        tag_name: tag.to_string(),
        assets: vec![
            GithubAsset {
                name: "VencordDesktopPreload.js".to_string(),
                browser_download_url: "https://x/preload".to_string(),
            },
            GithubAsset {
                name: "VencordDesktopMain.js".to_string(),
                browser_download_url: "https://x/main".to_string(),
            },
        ],
    }
}

fn manifest(version: &str) -> VencordManifest {
    VencordManifest {
        version: version.to_string(),
        preload_name: "A.js".to_string(),
        main_name: "B.js".to_string(),
    }
}

fn is_download(a: &CacheAction) -> bool {
    matches!(a, CacheAction::Download { .. })
}

#[test]
fn cache_hit_downloads_nothing() {
    let mut actions = Vec::new();
    let mut step = CacheStep::start();
    actions.push(step.action());
    step = step.advance(CacheEvent::ReleaseFetched(Ok(release("v1.2.3"))));
    actions.push(step.action());
    step = step.advance(CacheEvent::ManifestRead(Some(manifest("v1.2.3"))));
    let check = step.action();
    assert_eq!(
        check,
        CacheAction::CheckFiles { preload_name: "A.js".to_string(), main_name: "B.js".to_string() }
    );
    actions.push(check);
    step = step.advance(CacheEvent::FilesChecked(true));
    assert_eq!(step.action(), CacheAction::Finish);
    assert!(!actions.iter().any(is_download));
    let out = step.outcome().expect("finished").expect("succeeded");
    assert_eq!(
        out,
        CachedAssets {
            version: "v1.2.3".to_string(),
            preload_name: "A.js".to_string(),
            main_name: "B.js".to_string(),
            cached: true,
        }
    );
}

#[test]
fn cache_miss_downloads_both_and_writes_manifest() {
    let mut step = CacheStep::start();
    step = step.advance(CacheEvent::ReleaseFetched(Ok(release("v1.3.0"))));
    assert_eq!(step.action(), CacheAction::ReadManifest);
    step = step.advance(CacheEvent::ManifestRead(Some(manifest("v1.2.3"))));
    assert_eq!(
        step.action(),
        CacheAction::Download { role: AssetRole::Preload, url: "https://x/preload".to_string() }
    );
    step = step.advance(CacheEvent::Downloaded(Ok(())));
    assert_eq!(
        step.action(),
        CacheAction::Download { role: AssetRole::Main, url: "https://x/main".to_string() }
    );
    step = step.advance(CacheEvent::Downloaded(Ok(())));
    assert_eq!(
        step.action(),
        CacheAction::WriteManifest {
            manifest: VencordManifest {
                version: "v1.3.0".to_string(),
                preload_name: "VencordDesktopPreload.js".to_string(),
                main_name: "VencordDesktopMain.js".to_string(),
            }
        }
    );
    step = step.advance(CacheEvent::ManifestWritten(Ok(())));
    let out = step.outcome().expect("finished").expect("succeeded");
    assert_eq!(out.version, "v1.3.0");
    assert!(!out.cached);
    assert_eq!(out.preload_name, "VencordDesktopPreload.js");
    assert_eq!(out.main_name, "VencordDesktopMain.js");
}

#[test]
fn missing_files_with_current_manifest_is_a_miss() {
    let mut step = CacheStep::start();
    step = step.advance(CacheEvent::ReleaseFetched(Ok(release("v1.2.3"))));
    step = step.advance(CacheEvent::ManifestRead(Some(manifest("v1.2.3"))));
    step = step.advance(CacheEvent::FilesChecked(false));
    assert!(matches!(step.action(), CacheAction::Download { role: AssetRole::Preload, .. }));
}

#[test]
fn failed_main_download_writes_no_manifest() {
    let mut step = CacheStep::start();
    step = step.advance(CacheEvent::ReleaseFetched(Ok(release("v1.3.0"))));
    step = step.advance(CacheEvent::ManifestRead(None));
    step = step.advance(CacheEvent::Downloaded(Ok(())));
    step = step.advance(CacheEvent::Downloaded(Err(AppError::Network("503".to_string()))));
    assert_eq!(step.action(), CacheAction::Finish);
    step = step.advance(CacheEvent::ManifestWritten(Ok(())));
    assert_eq!(step.action(), CacheAction::Finish);
    assert_eq!(step.outcome(), Some(Err(AppError::Network("503".to_string()))));

    let mut retry = CacheStep::start();
    retry = retry.advance(CacheEvent::ReleaseFetched(Ok(release("v1.3.0"))));
    retry = retry.advance(CacheEvent::ManifestRead(None));
    assert!(matches!(retry.action(), CacheAction::Download { role: AssetRole::Preload, .. }));
}

#[test]
fn failed_fetch_ends_the_run() {
    let step = CacheStep::start()
        .advance(CacheEvent::ReleaseFetched(Err(AppError::Network("offline".to_string()))));
    assert_eq!(step.outcome(), Some(Err(AppError::Network("offline".to_string()))));
}

#[test]
fn failed_manifest_write_is_reported() {
    let mut step = CacheStep::start();
    step = step.advance(CacheEvent::ReleaseFetched(Ok(release("v2"))));
    step = step.advance(CacheEvent::ManifestRead(None));
    step = step.advance(CacheEvent::Downloaded(Ok(())));
    step = step.advance(CacheEvent::Downloaded(Ok(())));
    step = step.advance(CacheEvent::ManifestWritten(Err(AppError::Io("read-only".to_string()))));
    assert_eq!(step.outcome(), Some(Err(AppError::Io("read-only".to_string()))));
}

#[test]
fn unresolvable_asset_lists_available_names() {
    let rel = GithubRelease {
        tag_name: "v1".to_string(),
        assets: vec![
            GithubAsset { name: "VencordDesktopPreload.js".to_string(), browser_download_url: "p".to_string() },
            GithubAsset { name: "notes.txt".to_string(), browser_download_url: "n".to_string() },
        ],
    };
    let err = resolve_release(rel).expect_err("main asset is missing");
    assert_eq!(
        err,
        AppError::Resolution {
            role: AssetRole::Main,
            available: "VencordDesktopPreload.js, notes.txt".to_string()
        }
    );
    let step = CacheStep::start().advance(CacheEvent::ReleaseFetched(Ok(GithubRelease {
        tag_name: "v1".to_string(),
        assets: vec![],
    })));
    assert_eq!(
        step.outcome(),
        Some(Err(AppError::Resolution { role: AssetRole::Preload, available: String::new() }))
    );
}

#[test]
fn event_that_does_not_fit_is_ignored() {
    let step = CacheStep::start().advance(CacheEvent::FilesChecked(true));
    assert_eq!(step, CacheStep::FetchingRelease);
    assert_eq!(step.action(), CacheAction::FetchRelease);
}
