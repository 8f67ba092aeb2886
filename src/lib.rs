//! Configuration, window state and plugin-asset cache logic of a desktop shell
//! that hosts a web application.
//!
//! Everything here works on plain values: reading and writing files, HTTP
//! requests and the window system are left to the host, which hands the
//! results to the functions of this crate and performs what they decide.

pub mod assets;
pub mod cache;
pub mod config;
pub mod error;
pub mod settings;
pub mod state;
pub mod text;
pub mod window;

pub use assets::{
    available_assets, pick_asset_url, AssetRole, GithubAsset, GithubRelease, VencordAssets,
    VencordManifest,
};
pub use cache::{CacheAction, CacheEvent, CacheStep, CachedAssets, ResolvedRelease};
pub use config::AppConfig;
pub use error::AppError;
pub use settings::{config_source, ConfigSource, LoadedConfig, SettingsStore};
pub use state::{AppState, LoadedState, StateStore, WindowBounds};
pub use window::{
    handle_window_notification, restore_plan, update_bounds, RestorePlan, WindowNotification,
    WindowPosition, WindowSize,
};
