//! Package definitions of the Mason registry: choosing a platform's asset
//! and the URL to download it from.
use vstd::prelude::*;

use super::platform::{target_patterns, Arch, Os, Platform};
use crate::error::RefactorError;
use crate::text::{
    chars_of, contains, copy_str, lowercase, push_str, split, split_chars, starts_with,
    str_contains, string_of, sub_chars, to_lowercase, vec_views, views,
};

verus! {

/// A package definition from the Mason registry.
#[derive(Debug, Clone)]
pub struct Package {
    /// Package name.
    pub name: String,
    /// Package description.
    pub description: String,
    /// Homepage URL.
    pub homepage: String,
    /// License identifiers.
    pub licenses: Vec<String>,
    /// Languages this server supports.
    pub languages: Vec<String>,
    /// Categories (e.g., "LSP", "DAP", "Linter").
    pub categories: Vec<String>,
    /// Source information for downloading.
    pub source: PackageSource,
    /// Binary mappings.
    pub bin: std::collections::HashMap<String, String>,
}

/// Source information for a package.
#[derive(Debug, Clone)]
pub struct PackageSource {
    /// Source identifier (e.g., "pkg:github/rust-lang/rust-analyzer@2024-01-01").
    pub id: String,
    /// Platform-specific assets.
    pub asset: Vec<SourceAsset>,
}

/// A downloadable asset for a specific platform.
#[derive(Debug, Clone)]
pub struct SourceAsset {
    /// Target platform (e.g., "linux_x64", "darwin_arm64").
    pub target: String,
    /// Filename to download.
    pub file: String,
    /// Binary name after extraction (if different from archive name).
    pub bin: Option<String>,
}

/// The asset target and a pattern name each other: one contains the other.
pub open spec fn target_hits(target: Seq<char>, pattern: Seq<char>) -> bool {
    contains(target, pattern) || contains(pattern, target)
}

/// The first asset from index `j` on whose target hits the pattern.
pub open spec fn first_hit_from(assets: Seq<SourceAsset>, pattern: Seq<char>, j: int) -> Option<int>
    decreases assets.len() - j,
{
    if j < 0 || j >= assets.len() {
        None
    } else if target_hits(assets[j].target@, pattern) {
        Some(j)
    } else {
        first_hit_from(assets, pattern, j + 1)
    }
}

/// The first asset hit by a pattern, taking the patterns in order from `i`.
pub open spec fn first_hit_by_patterns(assets: Seq<SourceAsset>, patterns: Seq<Seq<char>>, i: int) -> Option<int>
    decreases patterns.len() - i,
{
    if i < 0 || i >= patterns.len() {
        None
    } else {
        match first_hit_from(assets, patterns[i], 0) {
            Some(j) => Some(j),
            None => first_hit_by_patterns(assets, patterns, i + 1),
        }
    }
}

/// A lower-cased asset target names the platform's OS and architecture.
pub open spec fn target_names_platform(t: Seq<char>, p: Platform) -> bool {
    let os_ok = match p.os {
        Os::Linux => contains(t, "linux"@),
        Os::MacOS => contains(t, "darwin"@) || contains(t, "macos"@) || contains(t, "apple"@),
        Os::Windows => contains(t, "windows"@) || contains(t, "win"@),
    };
    let arch_ok = match p.arch {
        Arch::X64 => contains(t, "x86_64"@) || contains(t, "x64"@) || contains(t, "amd64"@),
        Arch::Arm64 => contains(t, "aarch64"@) || contains(t, "arm64"@),
        Arch::X86 => contains(t, "i686"@) || (contains(t, "x86"@) && !contains(t, "x86_64"@)),
    };
    os_ok && arch_ok
}

/// The first asset from index `j` on whose lower-cased target names the platform.
pub open spec fn first_named_from(assets: Seq<SourceAsset>, p: Platform, j: int) -> Option<int>
    decreases assets.len() - j,
{
    if j < 0 || j >= assets.len() {
        None
    } else if target_names_platform(lowercase(assets[j].target@), p) {
        Some(j)
    } else {
        first_named_from(assets, p, j + 1)
    }
}

/// The asset for a platform: the first hit by the platform's target patterns
/// in pattern order, else the first whose target names the platform.
pub open spec fn asset_index_for(assets: Seq<SourceAsset>, p: Platform) -> Option<int> {
    match first_hit_by_patterns(assets, target_patterns(p), 0) {
        Some(j) => Some(j),
        None => first_named_from(assets, p, 0),
    }
}

/// The download URL of a package source: GitHub sources give
/// `https://github.com/<repo>/releases/download/<version>/<file>` when the
/// rest of the ID is `<repo>@<version>`; other sources are refused.
pub open spec fn download_url_spec(id: Seq<char>, file: Seq<char>) -> Result<Seq<char>, Seq<char>> {
    if "pkg:github/"@.is_prefix_of(id) {
        let parts = split(id.skip(11), '@');
        if parts.len() == 2 {
            Ok("https://github.com/"@ + parts[0] + "/releases/download/"@ + parts[1] + "/"@ + file)
        } else {
            Err("Invalid GitHub package ID format: "@ + id)
        }
    } else if "pkg:npm/"@.is_prefix_of(id) {
        Err("npm packages require npm to install: "@ + id)
    } else if "pkg:pypi/"@.is_prefix_of(id) {
        Err("PyPI packages require pip to install: "@ + id)
    } else if "pkg:cargo/"@.is_prefix_of(id) {
        Err("Cargo packages require cargo to install: "@ + id)
    } else {
        Err("Unknown package source type: "@ + id)
    }
}

/// A string made of a prefix and a rest.
fn concat_str(a: &str, b: &str) -> (r: String)
    ensures
        r@ == a@ + b@,
{
    let mut s = copy_str(a);
    push_str(&mut s, b);
    s
}

impl Package {
    /// Gets the asset matching the given platform.
    pub fn get_asset_for_platform(&self, platform: &Platform) -> (r: Option<&SourceAsset>)
        ensures
            match asset_index_for(self.source.asset@, *platform) {
                Some(j) => r == Some(&self.source.asset@[j]),
                None => r is None,
            },
    {
        let patterns = platform.get_target_patterns();
        let ghost pv = views(patterns@);
        let assets = &self.source.asset;
        let mut i: usize = 0;
        while i < patterns.len()
            invariant
                0 <= i <= patterns.len(),
                pv == views(patterns@),
                pv == target_patterns(*platform),
                assets@ == self.source.asset@,
                first_hit_by_patterns(assets@, pv, 0) == first_hit_by_patterns(assets@, pv, i as int),
            decreases patterns.len() - i,
        {
            assert(pv[i as int] == patterns@[i as int]@);
            let mut j: usize = 0;
            while j < assets.len()
                invariant
                    0 <= j <= assets.len(),
                    i < patterns.len(),
                    pv == views(patterns@),
                    pv == target_patterns(*platform),
                    assets@ == self.source.asset@,
                    first_hit_by_patterns(assets@, pv, 0) == first_hit_by_patterns(assets@, pv, i as int),
                    pv[i as int] == patterns@[i as int]@,
                    first_hit_from(assets@, pv[i as int], 0) == first_hit_from(assets@, pv[i as int], j as int),
                decreases assets.len() - j,
            {
                let t = assets[j].target.as_str();
                let p = patterns[i].as_str();
                if str_contains(t, p) || str_contains(p, t) {
                    return Some(&assets[j]);
                }
                j = j + 1;
            }
            i = i + 1;
        }
        assert(first_hit_by_patterns(assets@, pv, 0) is None);
        let mut j: usize = 0;
        while j < assets.len()
            invariant
                0 <= j <= assets.len(),
                assets@ == self.source.asset@,
                first_hit_by_patterns(assets@, target_patterns(*platform), 0) is None,
                first_named_from(assets@, *platform, 0) == first_named_from(assets@, *platform, j as int),
            decreases assets.len() - j,
        {
            if self.asset_matches_platform(assets[j].target.as_str(), platform) {
                return Some(&assets[j]);
            }
            j = j + 1;
        }
        None
    }

    /// Checks if an asset target, lower-cased, names the platform.
    pub fn asset_matches_platform(&self, target: &str, platform: &Platform) -> (r: bool)
        ensures
            r == target_names_platform(lowercase(target@), *platform),
    {
        let lower = to_lowercase(target);
        let t = lower.as_str();
        let os_ok = match platform.os {
            Os::Linux => str_contains(t, "linux"),
            Os::MacOS => str_contains(t, "darwin") || str_contains(t, "macos") || str_contains(
                t,
                "apple",
            ),
            Os::Windows => str_contains(t, "windows") || str_contains(t, "win"),
        };
        let arch_ok = match platform.arch {
            Arch::X64 => str_contains(t, "x86_64") || str_contains(t, "x64") || str_contains(
                t,
                "amd64",
            ),
            Arch::Arm64 => str_contains(t, "aarch64") || str_contains(t, "arm64"),
            Arch::X86 => str_contains(t, "i686") || (str_contains(t, "x86") && !str_contains(
                t,
                "x86_64",
            )),
        };
        os_ok && arch_ok
    }

    /// Constructs the download URL for an asset.
    pub fn get_download_url(&self, asset: &SourceAsset) -> (r: Result<String, RefactorError>)
        ensures
            match download_url_spec(self.source.id@, asset.file@) {
                Ok(url) => r matches Ok(s) && s@ == url,
                Err(m) => r matches Err(RefactorError::TransformFailed { message }) && message@
                    == m,
            },
    {
        let id = self.source.id.as_str();
        let idv = chars_of(id);
        if starts_with(&idv, &chars_of("pkg:github/")) {
            self.github_download_url(id, asset)
        } else if starts_with(&idv, &chars_of("pkg:npm/")) {
            Err(
                RefactorError::TransformFailed {
                    message: concat_str("npm packages require npm to install: ", id),
                },
            )
        } else if starts_with(&idv, &chars_of("pkg:pypi/")) {
            Err(
                RefactorError::TransformFailed {
                    message: concat_str("PyPI packages require pip to install: ", id),
                },
            )
        } else if starts_with(&idv, &chars_of("pkg:cargo/")) {
            Err(
                RefactorError::TransformFailed {
                    message: concat_str("Cargo packages require cargo to install: ", id),
                },
            )
        } else {
            Err(
                RefactorError::TransformFailed {
                    message: concat_str("Unknown package source type: ", id),
                },
            )
        }
    }

    /// Constructs a GitHub release download URL from an ID of the form
    /// `pkg:github/<repo>@<version>`.
    pub fn github_download_url(&self, id: &str, asset: &SourceAsset) -> (r: Result<String, RefactorError>)
        requires
            "pkg:github/"@.is_prefix_of(id@),
        ensures
            ({
                let parts = split(id@.skip(11), '@');
                if parts.len() == 2 {
                    r matches Ok(s) && s@ == "https://github.com/"@ + parts[0] + "/releases/download/"@
                        + parts[1] + "/"@ + asset.file@
                } else {
                    r matches Err(RefactorError::TransformFailed { message }) && message@
                        == "Invalid GitHub package ID format: "@ + id@
                }
            }),
    {
        proof {
            reveal_strlit("pkg:github/");
        }
        let idv = chars_of(id);
        let rest = sub_chars(&idv, 11, idv.len());
        assert(rest@ =~= id@.skip(11));
        let parts = split_chars(&rest, '@');
        assert(vec_views(parts@).len() == parts@.len());
        if parts.len() != 2 {
            return Err(
                RefactorError::TransformFailed {
                    message: concat_str("Invalid GitHub package ID format: ", id),
                },
            );
        }
        assert(vec_views(parts@)[0] == parts@[0]@);
        assert(vec_views(parts@)[1] == parts@[1]@);
        let mut url = copy_str("https://github.com/");
        push_str(&mut url, string_of(&parts[0]).as_str());
        push_str(&mut url, "/releases/download/");
        push_str(&mut url, string_of(&parts[1]).as_str());
        push_str(&mut url, "/");
        push_str(&mut url, asset.file.as_str());
        Ok(url)
    }
}

} // verus!
