use vstd::prelude::*;

use crate::config::{lemma_sanitize_idempotent, AppConfig};

verus! {

/// Holds the current configuration, which is always normalized.
pub struct SettingsStore {
    current: AppConfig,
}

/// The file that a load reads.
#[derive(PartialEq, Eq, Structural, Clone, Copy, Debug)]
pub enum ConfigSource {
    /// The settings file in the application data directory.
    Canonical,
    /// The configuration file of the legacy location, read only as a
    /// fallback.
    Legacy,
    /// Neither file exists: the configuration starts from defaults.
    Defaults,
}

/// The result of a load.
#[derive(Debug, PartialEq, Eq)]
pub struct LoadedConfig {
    /// The normalized configuration, now held by the store.
    pub config: AppConfig,
    /// Where it came from.
    pub source: ConfigSource,
    /// The settings file is absent and must be created with `config`.
    pub write_canonical: bool,
}

/// Which file a load reads: the settings file where it exists, else the
/// legacy file where that exists, else none.
pub open spec fn source_for(canonical_exists: bool, legacy_exists: bool) -> ConfigSource {
    if canonical_exists {
        ConfigSource::Canonical
    } else if legacy_exists {
        ConfigSource::Legacy
    } else {
        ConfigSource::Defaults
    }
}

/// Decides which file a load reads; `legacy_exists` is false where the
/// legacy location cannot be resolved.
pub fn config_source(canonical_exists: bool, legacy_exists: bool) -> (r: ConfigSource)
    ensures
        r == source_for(canonical_exists, legacy_exists),
{
    if canonical_exists {
        ConfigSource::Canonical
    } else if legacy_exists {
        ConfigSource::Legacy
    } else {
        ConfigSource::Defaults
    }
}

/// The outcome of loading `read` from `source`: the normalized content, or
/// the normalized defaults where nothing was read; the settings file is
/// written unless it was the source.
pub open spec fn loaded(source: ConfigSource, read: Option<AppConfig>) -> LoadedConfig {
    let base = match read {
        Some(c) => c,
        None => AppConfig::blank(),
    };
    LoadedConfig {
        config: base.sanitized(),
        source,
        write_canonical: source != ConfigSource::Canonical,
    }
}

impl View for SettingsStore {
    type V = AppConfig;

    /// The value held.
    closed spec fn view(&self) -> AppConfig {
        self.current
    }
}

impl SettingsStore {
    #[verifier::type_invariant]
    spec fn normalized(self) -> bool {
        self.current.is_sanitized()
    }

    /// A store holding the normalized defaults.
    pub fn new() -> (r: SettingsStore)
        ensures
            r@ == AppConfig::blank().sanitized(),
    {
        SettingsStore { current: AppConfig::default().sanitize() }
    }

    /// A copy of the configuration held.
    pub fn get(&self) -> (r: AppConfig)
        ensures
            r == self@,
            r.is_sanitized(),
    {
        proof {
            use_type_invariant(self);
        }
        self.current.clone()
    }

    /// Normalizes `cfg`, holds it, and returns it.
    pub fn set(&mut self, cfg: AppConfig) -> (r: AppConfig)
        ensures
            r == cfg.sanitized(),
            final(self)@ == r,
    {
        let cfg = cfg.sanitize();
        self.current = cfg.clone();
        cfg
    }

    /// Completes a load: `read` is the parsed content of the file that
    /// `source` names, `None` where `source` is `Defaults`. The normalized
    /// value is held and returned.
    pub fn load(&mut self, source: ConfigSource, read: Option<AppConfig>) -> (r: LoadedConfig)
        ensures
            r == loaded(source, read),
            final(self)@ == r.config,
    {
        let base = match read {
            Some(c) => c,
            None => AppConfig::default(),
        };
        let config = self.set(base);
        LoadedConfig { config, source, write_canonical: source != ConfigSource::Canonical }
    }
}

/// Saving `c` stores and writes `c` normalized; a later load finds the
/// settings file, reads that value back, and returns it unchanged, whatever
/// the legacy file holds.
pub proof fn law_save_then_load(c: AppConfig, legacy_exists: bool)
    ensures
        source_for(true, legacy_exists) == ConfigSource::Canonical,
        loaded(ConfigSource::Canonical, Some(c.sanitized())).config == c.sanitized(),
        !loaded(ConfigSource::Canonical, Some(c.sanitized())).write_canonical,
{
    lemma_sanitize_idempotent(c);
}

/// Without a settings file, a load reads the legacy value `l`, returns `l`
/// normalized and asks for the settings file to be written with it; the next
/// load reads the settings file alone and returns the same value.
pub proof fn law_legacy_migration(l: AppConfig, legacy_exists_later: bool)
    ensures
        source_for(false, true) == ConfigSource::Legacy,
        loaded(ConfigSource::Legacy, Some(l)).config == l.sanitized(),
        loaded(ConfigSource::Legacy, Some(l)).write_canonical,
        source_for(true, legacy_exists_later) == ConfigSource::Canonical,
        loaded(ConfigSource::Canonical, Some(l.sanitized())).config == l.sanitized(),
{
    lemma_sanitize_idempotent(l);
}

} // verus!
