use vstd::prelude::*;

use crate::text::{
    contains_text, ends_with_text, join_texts, joined, lower_of, lowercase, text_contains,
    text_ends_with,
};

verus! {

/// File name of the preload script, both in a release and in the cache.
pub const VENCORD_PRELOAD_NAME: &'static str = "VencordDesktopPreload.js";

/// File name of the main script, both in a release and in the cache.
pub const VENCORD_MAIN_NAME: &'static str = "VencordDesktopMain.js";

/// Lowercase keyword that a preload asset's name holds when it is not named
/// exactly.
pub const PRELOAD_KEYWORD: &'static str = "desktoppreload";

/// Lowercase keyword that a main asset's name holds when it is not named
/// exactly.
pub const MAIN_KEYWORD: &'static str = "desktopmain";

/// Extension of the script files that the keyword fallback accepts.
pub const SCRIPT_EXTENSION: &'static str = ".js";

/// Separator between asset names in a diagnostic list.
pub const NAME_SEPARATOR: &'static str = ", ";

/// One downloadable file of a release.
#[derive(Debug, PartialEq, Eq)]
pub struct GithubAsset {
    pub name: String,
    pub browser_download_url: String,
}

/// Release metadata: a version tag and the release's assets.
#[derive(Debug, PartialEq, Eq)]
pub struct GithubRelease {
    pub tag_name: String,
    pub assets: Vec<GithubAsset>,
}

/// The local record of which cached asset version is valid on disk.
#[derive(Debug, PartialEq, Eq)]
pub struct VencordManifest {
    pub version: String,
    pub preload_name: String,
    pub main_name: String,
}

/// Where the cached assets are, and whether they were already there.
#[derive(Debug, PartialEq, Eq)]
pub struct VencordAssets {
    pub version: String,
    pub dir: String,
    pub preload_path: String,
    pub main_path: String,
    pub cached: bool,
}

/// The two assets that the cache keeps.
#[derive(PartialEq, Eq, Structural, Clone, Copy, Debug)]
pub enum AssetRole {
    Preload,
    Main,
}

impl AssetRole {
    /// The name of the role in messages.
    pub open spec fn word_spec(self) -> &'static str {
        match self {
            AssetRole::Preload => "preload",
            AssetRole::Main => "main",
        }
    }

    #[verifier::when_used_as_spec(word_spec)]
    pub fn word(self) -> (r: &'static str)
        ensures
            r == self.word_spec(),
    {
        match self {
            AssetRole::Preload => "preload",
            AssetRole::Main => "main",
        }
    }

    /// The exact asset name looked for, which is also the cached file's name.
    pub open spec fn file_name_spec(self) -> &'static str {
        match self {
            AssetRole::Preload => VENCORD_PRELOAD_NAME,
            AssetRole::Main => VENCORD_MAIN_NAME,
        }
    }

    #[verifier::when_used_as_spec(file_name_spec)]
    pub fn file_name(self) -> (r: &'static str)
        ensures
            r == self.file_name_spec(),
    {
        match self {
            AssetRole::Preload => VENCORD_PRELOAD_NAME,
            AssetRole::Main => VENCORD_MAIN_NAME,
        }
    }

    /// The keyword of the fallback match.
    pub open spec fn keyword_spec(self) -> &'static str {
        match self {
            AssetRole::Preload => PRELOAD_KEYWORD,
            AssetRole::Main => MAIN_KEYWORD,
        }
    }

    #[verifier::when_used_as_spec(keyword_spec)]
    pub fn keyword(self) -> (r: &'static str)
        ensures
            r == self.keyword_spec(),
    {
        match self {
            AssetRole::Preload => PRELOAD_KEYWORD,
            AssetRole::Main => MAIN_KEYWORD,
        }
    }
}

/// `i` is the first position of `s` whose element satisfies `f`.
pub open spec fn is_first<A>(s: Seq<A>, f: spec_fn(A) -> bool, i: int) -> bool {
    &&& 0 <= i < s.len()
    &&& f(s[i])
    &&& forall|j: int| 0 <= j < i ==> !f(#[trigger] s[j])
}

/// The first position of `s` whose element satisfies `f`, if any.
pub open spec fn first_where<A>(s: Seq<A>, f: spec_fn(A) -> bool) -> Option<int> {
    if exists|i: int| is_first(s, f, i) {
        Some(choose|i: int| is_first(s, f, i))
    } else {
        None
    }
}

/// A position that is first is the one that `first_where` gives.
pub proof fn lemma_first_where_is<A>(s: Seq<A>, f: spec_fn(A) -> bool, i: int)
    requires
        is_first(s, f, i),
    ensures
        first_where(s, f) == Some(i),
{
    let k = choose|k: int| is_first(s, f, k);
    assert(is_first(s, f, k));
    if k < i {
        assert(!f(s[k]));
    } else if k > i {
        assert(!f(s[i]));
    }
}

/// Where no element satisfies `f`, `first_where` finds nothing.
pub proof fn lemma_first_where_none<A>(s: Seq<A>, f: spec_fn(A) -> bool)
    requires
        forall|j: int| 0 <= j < s.len() ==> !f(#[trigger] s[j]),
    ensures
        first_where(s, f) is None,
{
    if exists|i: int| is_first(s, f, i) {
        let k = choose|k: int| is_first(s, f, k);
        assert(f(s[k]));
    }
}

/// The asset is named exactly `name`.
pub open spec fn named(name: Seq<char>) -> spec_fn(GithubAsset) -> bool {
    |a: GithubAsset| a.name@ == name
}

/// The fallback match on lowercase text: the name holds the keyword and ends
/// in the script extension.
pub open spec fn loose_match(lower_name: Seq<char>, lower_key: Seq<char>) -> bool {
    contains_text(lower_name, lower_key) && ends_with_text(lower_name, SCRIPT_EXTENSION@)
}

/// The asset's lowercase name holds the lowercase keyword and ends in the
/// script extension.
pub open spec fn keyword_match(key: Seq<char>) -> spec_fn(GithubAsset) -> bool {
    |a: GithubAsset| loose_match(lower_of(a.name@), lower_of(key))
}

/// The download URL chosen for an asset: that of the first asset named
/// exactly `name`, else that of the first asset whose lowercase name holds the
/// lowercase `key` and ends in the script extension, else none.
pub open spec fn picked_url(assets: Seq<GithubAsset>, name: Seq<char>, key: Seq<char>) -> Option<
    String,
> {
    match first_where(assets, named(name)) {
        Some(i) => Some(assets[i].browser_download_url),
        None => match first_where(assets, keyword_match(key)) {
            Some(i) => Some(assets[i].browser_download_url),
            None => None,
        },
    }
}

/// The names of the assets, in order.
pub open spec fn asset_names(assets: Seq<GithubAsset>) -> Seq<Seq<char>> {
    assets.map_values(|a: GithubAsset| a.name@)
}

/// The fallback test on names that are already lowercase: `lower_name` holds
/// `lower_key` and ends in the script extension.
pub fn loose_name_match(lower_name: &str, lower_key: &str) -> (r: bool)
    ensures
        r == loose_match(lower_name@, lower_key@),
{
    text_contains(lower_name, lower_key) && text_ends_with(lower_name, SCRIPT_EXTENSION)
}

/// Chooses the download URL of the asset named `name`, falling back to a
/// case-insensitive match on `fallback_key` among script files.
pub fn pick_asset_url(release: &GithubRelease, name: &str, fallback_key: &str) -> (r: Option<
    String,
>)
    ensures
        r == picked_url(release.assets@, name@, fallback_key@),
{
    let n = release.assets.len();
    let wanted = String::from_str(name);
    let mut i: usize = 0;
    while i < n
        invariant
            n == release.assets@.len(),
            wanted@ == name@,
            i <= n,
            forall|j: int| 0 <= j < i ==> !named(name@)(#[trigger] release.assets@[j]),
        decreases n - i,
    {
        if release.assets[i].name == wanted {
            proof {
                lemma_first_where_is(release.assets@, named(name@), i as int);
            }
            return Some(release.assets[i].browser_download_url.clone());
        }
        i = i + 1;
    }
    proof {
        lemma_first_where_none(release.assets@, named(name@));
    }
    let key = lowercase(fallback_key);
    let mut i: usize = 0;
    while i < n
        invariant
            n == release.assets@.len(),
            key@ == lower_of(fallback_key@),
            first_where(release.assets@, named(name@)) is None,
            i <= n,
            forall|j: int| 0 <= j < i ==> !keyword_match(fallback_key@)(#[trigger] release.assets@[j]),
        decreases n - i,
    {
        let lower = lowercase(release.assets[i].name.as_str());
        if loose_name_match(lower.as_str(), key.as_str()) {
            proof {
                lemma_first_where_is(release.assets@, keyword_match(fallback_key@), i as int);
            }
            return Some(release.assets[i].browser_download_url.clone());
        }
        i = i + 1;
    }
    proof {
        lemma_first_where_none(release.assets@, keyword_match(fallback_key@));
    }
    None
}

/// The names of all the release's assets, joined with commas, for
/// diagnostics.
pub fn available_assets(release: &GithubRelease) -> (r: String)
    ensures
        r@ == joined(asset_names(release.assets@), NAME_SEPARATOR@),
{
    let mut names: Vec<String> = Vec::new();
    let mut i: usize = 0;
    while i < release.assets.len()
        invariant
            i <= release.assets@.len(),
            names@.len() == i,
            forall|j: int| 0 <= j < i ==> (#[trigger] names@[j])@ == release.assets@[j].name@,
        decreases release.assets@.len() - i,
    {
        names.push(release.assets[i].name.clone());
        i = i + 1;
    }
    let r = join_texts(&names, NAME_SEPARATOR);
    assert(names@.map_values(|p: String| p@) =~= asset_names(release.assets@));
    r
}

} // verus!
