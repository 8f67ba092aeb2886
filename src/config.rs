use vstd::prelude::*;

verus! {

/// User-facing configuration.
///
/// `theme_css` holds inline CSS and takes precedence over the file named by
/// `theme_path` when both are given.
#[derive(Debug, PartialEq, Eq)]
pub struct AppConfig {
    pub theme_path: Option<String>,
    pub theme_css: Option<String>,
    pub enable_theme: bool,
    pub enable_blockers: bool,
    pub enable_perf_css: bool,
    pub enable_vencord: bool,
}

/// Copies an optional string, keeping its value.
pub(crate) fn copy_text(t: &Option<String>) -> (r: Option<String>)
    ensures
        r == *t,
{
    match t {
        Some(s) => Some(s.clone()),
        None => None,
    }
}

impl AppConfig {
    /// The configuration with every flag off and no theme.
    pub open spec fn blank() -> AppConfig {
        AppConfig {
            theme_path: None,
            theme_css: None,
            enable_theme: false,
            enable_blockers: false,
            enable_perf_css: false,
            enable_vencord: false,
        }
    }

    /// Every flag is off and neither theme field is set.
    pub open spec fn is_blank(self) -> bool {
        &&& !self.enable_theme
        &&& !self.enable_blockers
        &&& !self.enable_perf_css
        &&& !self.enable_vencord
        &&& self.theme_path is None
        &&& self.theme_css is None
    }

    /// Normalization: a blank configuration becomes the default-enabled
    /// profile (blockers and performance CSS on, the plugin off); any other
    /// configuration is kept as it is.
    pub open spec fn sanitized(self) -> AppConfig {
        if self.is_blank() {
            AppConfig { enable_blockers: true, enable_perf_css: true, enable_vencord: false, ..self }
        } else {
            self
        }
    }

    /// A configuration that normalization leaves unchanged.
    pub open spec fn is_sanitized(self) -> bool {
        self.sanitized() == self
    }

    /// Applies the normalization rule of `sanitized`.
    pub fn sanitize(self) -> (r: AppConfig)
        ensures
            r == self.sanitized(),
            r.is_sanitized(),
    {
        let mut cfg = self;
        if !cfg.enable_blockers && !cfg.enable_perf_css && !cfg.enable_vencord && !cfg.enable_theme
            && cfg.theme_path.is_none() && cfg.theme_css.is_none()
        {
            cfg.enable_blockers = true;
            cfg.enable_perf_css = true;
            cfg.enable_vencord = false;
        }
        cfg
    }
    /// The theme file whose contents the page needs inline: the path, where
    /// no inline CSS is given.
    pub fn theme_file_to_read(&self) -> (r: Option<String>)
        ensures
            r == (if self.theme_css is None {
                self.theme_path
            } else {
                None::<String>
            }),
    {
        if self.theme_css.is_none() {
            copy_text(&self.theme_path)
        } else {
            None
        }
    }

    /// Fills the inline CSS with the contents of the theme file, where no
    /// inline CSS is given, a theme path is, and the file could be read.
    pub fn with_theme_file(self, contents: Option<String>) -> (r: AppConfig)
        ensures
            r == (if self.theme_css is None && self.theme_path is Some && contents is Some {
                AppConfig { theme_css: contents, ..self }
            } else {
                self
            }),
    {
        let mut cfg = self;
        if cfg.theme_css.is_none() && cfg.theme_path.is_some() && contents.is_some() {
            cfg.theme_css = contents;
        }
        cfg
    }
}

impl Default for AppConfig {
    fn default() -> (r: AppConfig)
        ensures
            r == AppConfig::blank(),
    {
        AppConfig {
            theme_path: None,
            theme_css: None,
            enable_theme: false,
            enable_blockers: false,
            enable_perf_css: false,
            enable_vencord: false,
        }
    }
}

impl Clone for AppConfig {
    fn clone(&self) -> (r: AppConfig)
        ensures
            r == *self,
    {
        AppConfig {
            theme_path: copy_text(&self.theme_path),
            theme_css: copy_text(&self.theme_css),
            enable_theme: self.enable_theme,
            enable_blockers: self.enable_blockers,
            enable_perf_css: self.enable_perf_css,
            enable_vencord: self.enable_vencord,
        }
    }
}

/// Normalizing twice gives the same configuration as normalizing once.
pub proof fn lemma_sanitize_idempotent(c: AppConfig)
    ensures
        c.sanitized().sanitized() == c.sanitized(),
        c.sanitized().is_sanitized(),
{
}

/// Normalization changes a configuration exactly when it is blank, and then
/// only its three feature flags.
pub proof fn lemma_sanitize_changes_only_blank(c: AppConfig)
    ensures
        !c.is_blank() ==> c.sanitized() == c,
        c.is_blank() ==> c.sanitized().enable_blockers && c.sanitized().enable_perf_css
            && !c.sanitized().enable_vencord && !c.sanitized().enable_theme
            && c.sanitized().theme_path == c.theme_path && c.sanitized().theme_css == c.theme_css,
{
}

} // verus!
