use vstd::prelude::*;

use crate::assets::{
    asset_names, available_assets, pick_asset_url, picked_url, AssetRole, GithubRelease,
    VencordManifest, MAIN_KEYWORD, NAME_SEPARATOR, PRELOAD_KEYWORD, VENCORD_MAIN_NAME,
    VENCORD_PRELOAD_NAME,
};
use crate::error::AppError;
use crate::text::joined;

verus! {

/// The remote version and the download URL chosen for each asset.
#[derive(Debug, PartialEq, Eq)]
pub struct ResolvedRelease {
    pub version: String,
    pub preload_url: String,
    pub main_url: String,
}

/// The cached pair of assets that a run settled on.
#[derive(Debug, PartialEq, Eq)]
pub struct CachedAssets {
    pub version: String,
    pub preload_name: String,
    pub main_name: String,
    /// The files were already present for this version; nothing was
    /// downloaded.
    pub cached: bool,
}

/// Where a run of the asset cache stands.
///
/// A run starts with `FetchingRelease`; each stage names, through `action`,
/// the outside work that the host performs next, and `advance` takes the
/// host's report of that work.
#[derive(Debug, PartialEq, Eq)]
pub enum CacheStep {
    FetchingRelease,
    ReadingManifest { release: ResolvedRelease },
    CheckingFiles { release: ResolvedRelease, manifest: VencordManifest },
    DownloadingPreload { release: ResolvedRelease },
    DownloadingMain { release: ResolvedRelease },
    WritingManifest { release: ResolvedRelease },
    Finished { outcome: Result<CachedAssets, AppError> },
}

/// What the host reports after performing an action.
#[derive(Debug, PartialEq, Eq)]
pub enum CacheEvent {
    /// The release metadata, or why it could not be had.
    ReleaseFetched(Result<GithubRelease, AppError>),
    /// The local manifest; `None` where it is absent or unreadable.
    ManifestRead(Option<VencordManifest>),
    /// Whether both files that the manifest names exist in the cache
    /// directory.
    FilesChecked(bool),
    /// The outcome of a download.
    Downloaded(Result<(), AppError>),
    /// The outcome of writing the manifest.
    ManifestWritten(Result<(), AppError>),
}

/// The outside work that a stage asks of the host.
#[derive(Debug, PartialEq, Eq)]
pub enum CacheAction {
    /// Fetch the release metadata from the remote endpoint.
    FetchRelease,
    /// Read the local manifest.
    ReadManifest,
    /// Check that both named files exist in the cache directory.
    CheckFiles { preload_name: String, main_name: String },
    /// Download `url` over the cache file of `role`, `role.file_name()`.
    Download { role: AssetRole, url: String },
    /// Write `manifest` as the local manifest.
    WriteManifest { manifest: VencordManifest },
    /// Nothing is left to do: the outcome is ready.
    Finish,
}

/// The manifest that names the current version with the fixed file names.
pub open spec fn is_manifest_for(m: VencordManifest, version: String) -> bool {
    &&& m.version == version
    &&& m.preload_name@ == VENCORD_PRELOAD_NAME@
    &&& m.main_name@ == VENCORD_MAIN_NAME@
}

/// How the two download URLs of a release resolve: both found, or the error
/// of the first role that has none.
pub open spec fn resolves_to(rel: GithubRelease, r: Result<ResolvedRelease, AppError>) -> bool {
    let p = picked_url(rel.assets@, VENCORD_PRELOAD_NAME@, PRELOAD_KEYWORD@);
    let m = picked_url(rel.assets@, VENCORD_MAIN_NAME@, MAIN_KEYWORD@);
    if p is None {
        missing_asset(rel, AssetRole::Preload, r)
    } else if m is None {
        missing_asset(rel, AssetRole::Main, r)
    } else {
        r == Ok::<ResolvedRelease, AppError>(
            ResolvedRelease { version: rel.tag_name, preload_url: p->0, main_url: m->0 },
        )
    }
}

/// `r` reports that no asset of `rel` fits `role`, listing every asset name.
pub open spec fn missing_asset(
    rel: GithubRelease,
    role: AssetRole,
    r: Result<ResolvedRelease, AppError>,
) -> bool {
    r matches Err(AppError::Resolution { role: got, available }) && got == role && available@
        == joined(asset_names(rel.assets@), NAME_SEPARATOR@)
}

/// Picks both download URLs of a release, or reports the first asset that
/// none fits.
pub fn resolve_release(rel: GithubRelease) -> (r: Result<ResolvedRelease, AppError>)
    ensures
        resolves_to(rel, r),
{
    let preload = pick_asset_url(&rel, VENCORD_PRELOAD_NAME, PRELOAD_KEYWORD);
    let preload_url = match preload {
        Some(u) => u,
        None => {
            return Err(
                AppError::Resolution { role: AssetRole::Preload, available: available_assets(&rel) },
            );
        },
    };
    let main = pick_asset_url(&rel, VENCORD_MAIN_NAME, MAIN_KEYWORD);
    let main_url = match main {
        Some(u) => u,
        None => {
            return Err(
                AppError::Resolution { role: AssetRole::Main, available: available_assets(&rel) },
            );
        },
    };
    Ok(ResolvedRelease { version: rel.tag_name, preload_url, main_url })
}

/// The manifest recorded after both downloads of `version` succeeded.
pub fn manifest_for(version: String) -> (m: VencordManifest)
    ensures
        is_manifest_for(m, version),
{
    VencordManifest {
        version,
        preload_name: String::from_str(VENCORD_PRELOAD_NAME),
        main_name: String::from_str(VENCORD_MAIN_NAME),
    }
}

impl CacheStep {
    /// The stage in which every run starts.
    pub fn start() -> (r: CacheStep)
        ensures
            r == CacheStep::FetchingRelease,
    {
        CacheStep::FetchingRelease
    }

    /// `next` is the stage that follows `self` once the host reports `event`.
    /// An event that does not answer the stage's action leaves it unchanged.
    pub open spec fn advances_to(self, event: CacheEvent, next: CacheStep) -> bool {
        match self {
            CacheStep::FetchingRelease => match event {
                CacheEvent::ReleaseFetched(Err(e)) => next == CacheStep::Finished {
                    outcome: Err(e),
                },
                CacheEvent::ReleaseFetched(Ok(rel)) => exists|r: Result<ResolvedRelease, AppError>|
                    #[trigger] resolves_to(rel, r) && next == match r {
                        Ok(release) => CacheStep::ReadingManifest { release },
                        Err(e) => CacheStep::Finished { outcome: Err(e) },
                    },
                _ => next == self,
            },
            CacheStep::ReadingManifest { release } => match event {
                CacheEvent::ManifestRead(found) => next == match found {
                    Some(manifest) => if manifest.version@ == release.version@ {
                        CacheStep::CheckingFiles { release, manifest }
                    } else {
                        CacheStep::DownloadingPreload { release }
                    },
                    None => CacheStep::DownloadingPreload { release },
                },
                _ => next == self,
            },
            CacheStep::CheckingFiles { release, manifest } => match event {
                CacheEvent::FilesChecked(present) => next == if present {
                    CacheStep::Finished {
                        outcome: Ok(
                            CachedAssets {
                                version: manifest.version,
                                preload_name: manifest.preload_name,
                                main_name: manifest.main_name,
                                cached: true,
                            },
                        ),
                    }
                } else {
                    CacheStep::DownloadingPreload { release }
                },
                _ => next == self,
            },
            CacheStep::DownloadingPreload { release } => match event {
                CacheEvent::Downloaded(Ok(_)) => next == CacheStep::DownloadingMain { release },
                CacheEvent::Downloaded(Err(e)) => next == CacheStep::Finished { outcome: Err(e) },
                _ => next == self,
            },
            CacheStep::DownloadingMain { release } => match event {
                CacheEvent::Downloaded(Ok(_)) => next == CacheStep::WritingManifest { release },
                CacheEvent::Downloaded(Err(e)) => next == CacheStep::Finished { outcome: Err(e) },
                _ => next == self,
            },
            CacheStep::WritingManifest { release } => match event {
                CacheEvent::ManifestWritten(Ok(_)) => next matches CacheStep::Finished {
                    outcome: Ok(a),
                } && a.version == release.version && a.preload_name@ == VENCORD_PRELOAD_NAME@
                    && a.main_name@ == VENCORD_MAIN_NAME@ && !a.cached,
                CacheEvent::ManifestWritten(Err(e)) => next == CacheStep::Finished {
                    outcome: Err(e),
                },
                _ => next == self,
            },
            CacheStep::Finished { .. } => next == self,
        }
    }

    /// `a` is the outside work that stage `self` asks for.
    pub open spec fn requests(self, a: CacheAction) -> bool {
        match self {
            CacheStep::FetchingRelease => a == CacheAction::FetchRelease,
            CacheStep::ReadingManifest { .. } => a == CacheAction::ReadManifest,
            CacheStep::CheckingFiles { manifest, .. } => a == CacheAction::CheckFiles {
                preload_name: manifest.preload_name,
                main_name: manifest.main_name,
            },
            CacheStep::DownloadingPreload { release } => a == CacheAction::Download {
                role: AssetRole::Preload,
                url: release.preload_url,
            },
            CacheStep::DownloadingMain { release } => a == CacheAction::Download {
                role: AssetRole::Main,
                url: release.main_url,
            },
            CacheStep::WritingManifest { release } => a matches CacheAction::WriteManifest {
                manifest,
            } && is_manifest_for(manifest, release.version),
            CacheStep::Finished { .. } => a == CacheAction::Finish,
        }
    }

    /// Takes the host's report of the current action and moves to the next
    /// stage.
    pub fn advance(self, event: CacheEvent) -> (r: CacheStep)
        ensures
            self.advances_to(event, r),
    {
        match self {
            CacheStep::FetchingRelease => match event {
                CacheEvent::ReleaseFetched(Err(e)) => CacheStep::Finished { outcome: Err(e) },
                CacheEvent::ReleaseFetched(Ok(rel)) => {
                    let resolved = resolve_release(rel);
                    match resolved {
                        Ok(release) => CacheStep::ReadingManifest { release },
                        Err(e) => CacheStep::Finished { outcome: Err(e) },
                    }
                },
                _ => CacheStep::FetchingRelease,
            },
            CacheStep::ReadingManifest { release } => match event {
                CacheEvent::ManifestRead(Some(manifest)) => {
                    if manifest.version == release.version {
                        CacheStep::CheckingFiles { release, manifest }
                    } else {
                        CacheStep::DownloadingPreload { release }
                    }
                },
                CacheEvent::ManifestRead(None) => CacheStep::DownloadingPreload { release },
                _ => CacheStep::ReadingManifest { release },
            },
            CacheStep::CheckingFiles { release, manifest } => match event {
                CacheEvent::FilesChecked(true) => CacheStep::Finished {
                    outcome: Ok(
                        CachedAssets {
                            version: manifest.version,
                            preload_name: manifest.preload_name,
                            main_name: manifest.main_name,
                            cached: true,
                        },
                    ),
                },
                CacheEvent::FilesChecked(false) => CacheStep::DownloadingPreload { release },
                _ => CacheStep::CheckingFiles { release, manifest },
            },
            CacheStep::DownloadingPreload { release } => match event {
                CacheEvent::Downloaded(Ok(())) => CacheStep::DownloadingMain { release },
                CacheEvent::Downloaded(Err(e)) => CacheStep::Finished { outcome: Err(e) },
                _ => CacheStep::DownloadingPreload { release },
            },
            CacheStep::DownloadingMain { release } => match event {
                CacheEvent::Downloaded(Ok(())) => CacheStep::WritingManifest { release },
                CacheEvent::Downloaded(Err(e)) => CacheStep::Finished { outcome: Err(e) },
                _ => CacheStep::DownloadingMain { release },
            },
            CacheStep::WritingManifest { release } => match event {
                CacheEvent::ManifestWritten(Ok(())) => CacheStep::Finished {
                    outcome: Ok(
                        CachedAssets {
                            version: release.version,
                            preload_name: String::from_str(VENCORD_PRELOAD_NAME),
                            main_name: String::from_str(VENCORD_MAIN_NAME),
                            cached: false,
                        },
                    ),
                },
                CacheEvent::ManifestWritten(Err(e)) => CacheStep::Finished { outcome: Err(e) },
                _ => CacheStep::WritingManifest { release },
            },
            CacheStep::Finished { outcome } => CacheStep::Finished { outcome },
        }
    }

    /// The outside work that this stage asks of the host.
    pub fn action(&self) -> (r: CacheAction)
        ensures
            self.requests(r),
    {
        match self {
            CacheStep::FetchingRelease => CacheAction::FetchRelease,
            CacheStep::ReadingManifest { .. } => CacheAction::ReadManifest,
            CacheStep::CheckingFiles { manifest, .. } => CacheAction::CheckFiles {
                preload_name: manifest.preload_name.clone(),
                main_name: manifest.main_name.clone(),
            },
            CacheStep::DownloadingPreload { release } => CacheAction::Download {
                role: AssetRole::Preload,
                url: release.preload_url.clone(),
            },
            CacheStep::DownloadingMain { release } => CacheAction::Download {
                role: AssetRole::Main,
                url: release.main_url.clone(),
            },
            CacheStep::WritingManifest { release } => CacheAction::WriteManifest {
                manifest: manifest_for(release.version.clone()),
            },
            CacheStep::Finished { .. } => CacheAction::Finish,
        }
    }

    /// The outcome of a finished run; `None` while work is left.
    pub fn outcome(self) -> (r: Option<Result<CachedAssets, AppError>>)
        ensures
            r == match self {
                CacheStep::Finished { outcome } => Some(outcome),
                _ => None::<Result<CachedAssets, AppError>>,
            },
    {
        match self {
            CacheStep::Finished { outcome } => Some(outcome),
            _ => None,
        }
    }
}

/// With both assets resolvable, a manifest that records the remote version
/// and both of its files present, a run ends with `cached` set and the
/// manifest's names, having asked for no download.
pub proof fn law_cache_hit(
    rel: GithubRelease,
    resolved: ResolvedRelease,
    manifest: VencordManifest,
    s1: CacheStep,
    s2: CacheStep,
    s3: CacheStep,
)
    requires
        resolves_to(rel, Ok(resolved)),
        manifest.version@ == rel.tag_name@,
        CacheStep::FetchingRelease.advances_to(CacheEvent::ReleaseFetched(Ok(rel)), s1),
        s1.advances_to(CacheEvent::ManifestRead(Some(manifest)), s2),
        s2.advances_to(CacheEvent::FilesChecked(true), s3),
    ensures
        s1 == (CacheStep::ReadingManifest { release: resolved }),
        s2 == (CacheStep::CheckingFiles { release: resolved, manifest }),
        s3 == (CacheStep::Finished {
            outcome: Ok(
                CachedAssets {
                    version: manifest.version,
                    preload_name: manifest.preload_name,
                    main_name: manifest.main_name,
                    cached: true,
                },
            ),
        }),
        forall|a: CacheAction|
            #![trigger CacheStep::FetchingRelease.requests(a)]
            #![trigger s1.requests(a)]
            #![trigger s2.requests(a)]
            #![trigger s3.requests(a)]
            CacheStep::FetchingRelease.requests(a) || s1.requests(a) || s2.requests(a)
                || s3.requests(a) ==> !(a is Download),
{
}

/// With both assets resolvable and no manifest for the remote version, a run
/// downloads the preload asset, then the main asset, then records a manifest
/// for the remote version, and ends without `cached`, reporting that version.
pub proof fn law_cache_miss(
    rel: GithubRelease,
    resolved: ResolvedRelease,
    found: Option<VencordManifest>,
    s1: CacheStep,
    s2: CacheStep,
    s3: CacheStep,
    s4: CacheStep,
    s5: CacheStep,
)
    requires
        resolves_to(rel, Ok(resolved)),
        found matches Some(m) ==> m.version@ != rel.tag_name@,
        CacheStep::FetchingRelease.advances_to(CacheEvent::ReleaseFetched(Ok(rel)), s1),
        s1.advances_to(CacheEvent::ManifestRead(found), s2),
        s2.advances_to(CacheEvent::Downloaded(Ok(())), s3),
        s3.advances_to(CacheEvent::Downloaded(Ok(())), s4),
        s4.advances_to(CacheEvent::ManifestWritten(Ok(())), s5),
    ensures
        s2.requests(
            CacheAction::Download { role: AssetRole::Preload, url: resolved.preload_url },
        ),
        s3.requests(CacheAction::Download { role: AssetRole::Main, url: resolved.main_url }),
        forall|a: CacheAction| #[trigger]
            s4.requests(a) ==> (a matches CacheAction::WriteManifest { manifest }
                && is_manifest_for(manifest, rel.tag_name)),
        s5 matches CacheStep::Finished { outcome: Ok(done) } && done.version == rel.tag_name
            && !done.cached && done.preload_name@ == VENCORD_PRELOAD_NAME@ && done.main_name@
            == VENCORD_MAIN_NAME@,
{
}

/// When the main download fails after the preload download succeeded, the run
/// ends with that error and from then on asks only to finish: no manifest is
/// written.
pub proof fn law_failed_download_writes_no_manifest(
    release: ResolvedRelease,
    e: AppError,
    s1: CacheStep,
    later: CacheEvent,
    s2: CacheStep,
)
    requires
        (CacheStep::DownloadingMain { release }).advances_to(CacheEvent::Downloaded(Err(e)), s1),
        s1.advances_to(later, s2),
    ensures
        s1 == (CacheStep::Finished { outcome: Err(e) }),
        s2 == s1,
        forall|a: CacheAction| #[trigger] s2.requests(a) ==> a == CacheAction::Finish,
{
}

/// A run whose manifest is absent, or records another version than the remote
/// one, downloads anew without looking at which files are present.
pub proof fn law_stale_manifest_is_a_miss(
    release: ResolvedRelease,
    found: Option<VencordManifest>,
    next: CacheStep,
)
    requires
        found matches Some(m) ==> m.version@ != release.version@,
        (CacheStep::ReadingManifest { release }).advances_to(CacheEvent::ManifestRead(found), next),
    ensures
        next == (CacheStep::DownloadingPreload { release }),
{
}

/// The stage that writes the manifest is entered only from the main
/// download, once it succeeded.
pub proof fn law_manifest_follows_main_download(s: CacheStep, e: CacheEvent, next: CacheStep)
    requires
        s.advances_to(e, next),
        next is WritingManifest,
        !(s is WritingManifest),
    ensures
        s is DownloadingMain,
        e matches CacheEvent::Downloaded(Ok(_)),
{
}

/// The main download is asked for only after the preload download succeeded.
pub proof fn law_main_download_follows_preload(s: CacheStep, e: CacheEvent, next: CacheStep)
    requires
        s.advances_to(e, next),
        next is DownloadingMain,
        !(s is DownloadingMain),
    ensures
        s is DownloadingPreload,
        e matches CacheEvent::Downloaded(Ok(_)),
{
}

} // verus!
