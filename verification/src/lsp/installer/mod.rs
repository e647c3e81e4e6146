//! LSP server installation from the Mason registry: platforms, packages and
//! the installer's settings.
pub mod package;
pub mod platform;

use vstd::prelude::*;

use crate::error::RefactorError;
use crate::pathname::{join_path, path_join};
use crate::text::{copy_str, push_str, str_ends_with};
use platform::Platform;

verus! {

/// `dirs::data_local_dir`: the user's local data directory, when the
/// environment gives one. What it returns depends on the environment and
/// the machine, so nothing is stated of it.
#[verifier::external_body]
fn data_local_dir() -> (r: Option<String>) {
    dirs::data_local_dir().map(|p| p.to_string_lossy().into_owned())
}

/// LSP server installer settings: where servers go, where downloads are
/// cached, and the platform to install for.
#[derive(Debug)]
pub struct LspInstaller {
    pub install_dir: String,
    pub cache_dir: String,
    pub platform: Platform,
}

impl LspInstaller {
    /// Creates an installer for a platform under the user's local data
    /// directory; fails when there is none.
    pub fn new(platform: Platform) -> (r: Result<Self, RefactorError>)
        ensures
            match r {
                Ok(x) => x.platform == platform && exists|d: Seq<char>|
                    x.install_dir@ == path_join(d, "refactor-dsl/lsp-servers"@) && x.cache_dir@
                        == path_join(d, "refactor-dsl/cache"@),
                Err(e) => e matches RefactorError::InvalidConfig(m) && m@
                    == "Cannot determine data directory"@,
            },
    {
        let dir = data_local_dir();
        match dir {
            Some(d) => Self::with_data_dir(Some(d.as_str()), platform),
            None => Self::with_data_dir(None, platform),
        }
    }

    /// Creates an installer for a platform under a data directory, failing
    /// when there is none.
    pub fn with_data_dir(data_dir: Option<&str>, platform: Platform) -> (r: Result<Self, RefactorError>)
        ensures
            match data_dir {
                Some(d) => r matches Ok(x) && x.platform == platform && x.install_dir@ == path_join(
                    d@,
                    "refactor-dsl/lsp-servers"@,
                ) && x.cache_dir@ == path_join(d@, "refactor-dsl/cache"@),
                None => r matches Err(RefactorError::InvalidConfig(m)) && m@
                    == "Cannot determine data directory"@,
            },
    {
        match data_dir {
            Some(d) => Ok(
                LspInstaller {
                    install_dir: join_path(d, "refactor-dsl/lsp-servers"),
                    cache_dir: join_path(d, "refactor-dsl/cache"),
                    platform,
                },
            ),
            None => Err(RefactorError::InvalidConfig(copy_str("Cannot determine data directory"))),
        }
    }

    /// Sets a custom installation directory.
    pub fn install_dir(self, path: &str) -> (r: Self)
        ensures
            r.install_dir@ == path@,
            r.cache_dir == self.cache_dir,
            r.platform == self.platform,
    {
        LspInstaller { install_dir: copy_str(path), ..self }
    }

    /// Sets a custom cache directory.
    pub fn cache_dir(self, path: &str) -> (r: Self)
        ensures
            r.install_dir == self.install_dir,
            r.cache_dir@ == path@,
            r.platform == self.platform,
    {
        LspInstaller { cache_dir: copy_str(path), ..self }
    }

    /// Returns the installation directory.
    pub fn get_install_dir(&self) -> (r: &str)
        ensures
            r@ == self.install_dir@,
    {
        self.install_dir.as_str()
    }
}

/// Information about an installed server.
#[derive(Debug, Clone)]
pub struct InstalledServer {
    /// Server name.
    pub name: String,
    /// Installed version.
    pub version: String,
    /// Path to the binary.
    pub binary: String,
}

/// How a downloaded server file is unpacked.
#[derive(Debug, Clone, Copy, PartialEq, Eq, Structural)]
pub enum ArchiveKind {
    /// One gzip-compressed file.
    Gzip,
    /// A gzip-compressed tar archive.
    TarGz,
    /// A zip archive.
    Zip,
    /// The binary itself.
    Plain,
}

/// The way a file of this name is unpacked, told by its ending.
pub open spec fn archive_kind_of(name: Seq<char>) -> ArchiveKind {
    if ".gz"@.is_suffix_of(name) && !".tar.gz"@.is_suffix_of(name) {
        ArchiveKind::Gzip
    } else if ".tar.gz"@.is_suffix_of(name) || ".tgz"@.is_suffix_of(name) {
        ArchiveKind::TarGz
    } else if ".zip"@.is_suffix_of(name) {
        ArchiveKind::Zip
    } else {
        ArchiveKind::Plain
    }
}

/// The way a downloaded file is unpacked, told by its name.
pub fn archive_kind(file_name: &str) -> (r: ArchiveKind)
    ensures
        r == archive_kind_of(file_name@),
{
    if str_ends_with(file_name, ".gz") && !str_ends_with(file_name, ".tar.gz") {
        ArchiveKind::Gzip
    } else if str_ends_with(file_name, ".tar.gz") || str_ends_with(file_name, ".tgz") {
        ArchiveKind::TarGz
    } else if str_ends_with(file_name, ".zip") {
        ArchiveKind::Zip
    } else {
        ArchiveKind::Plain
    }
}

/// The name of the installed binary: the one the package names, else, for
/// a single gzipped file, the archive's stem (`server` without one), for a
/// plain binary the file's own name, and `server` for an archive.
pub open spec fn binary_name_of(
    kind: ArchiveKind,
    bin: Option<Seq<char>>,
    file_name: Seq<char>,
    stem: Option<Seq<char>>,
) -> Seq<char> {
    match bin {
        Some(b) => b,
        None => match kind {
            ArchiveKind::Gzip => match stem {
                Some(s) => s,
                None => "server"@,
            },
            ArchiveKind::Plain => file_name,
            _ => "server"@,
        },
    }
}

/// The name under which an unpacked server binary is found.
pub fn binary_name(kind: ArchiveKind, bin: Option<&str>, file_name: &str, stem: Option<&str>) -> (r: String)
    ensures
        r@ == binary_name_of(
            kind,
            match bin {
                Some(b) => Some(b@),
                None => None,
            },
            file_name@,
            match stem {
                Some(s) => Some(s@),
                None => None,
            },
        ),
{
    match bin {
        Some(b) => copy_str(b),
        None => match kind {
            ArchiveKind::Gzip => match stem {
                Some(s) => copy_str(s),
                None => copy_str("server"),
            },
            ArchiveKind::Plain => copy_str(file_name),
            _ => copy_str("server"),
        },
    }
}

} // verus!
