//! Platforms (OS and architecture) and the names their release assets use.
use vstd::prelude::*;

use crate::text::{copy_str, str_eq, views};

verus! {

/// Represents a platform (OS + architecture).
#[derive(Debug, Clone, Copy, PartialEq, Eq, Structural)]
pub struct Platform {
    /// Operating system.
    pub os: Os,
    /// CPU architecture.
    pub arch: Arch,
}

/// Operating system types.
#[derive(Debug, Clone, Copy, PartialEq, Eq, Structural)]
pub enum Os {
    Linux,
    MacOS,
    Windows,
}

/// CPU architecture types.
#[derive(Debug, Clone, Copy, PartialEq, Eq, Structural)]
pub enum Arch {
    X64,
    Arm64,
    X86,
}

/// The OS that a Rust OS name denotes; other systems count as Linux on Unix
/// and as Windows elsewhere.
pub open spec fn os_of(name: Seq<char>, unix: bool) -> Os {
    if name == "linux"@ {
        Os::Linux
    } else if name == "macos"@ {
        Os::MacOS
    } else if name == "windows"@ {
        Os::Windows
    } else if unix {
        Os::Linux
    } else {
        Os::Windows
    }
}

/// The architecture that a Rust architecture name denotes; others count as x64.
pub open spec fn arch_of(name: Seq<char>) -> Arch {
    if name == "x86_64"@ || name == "amd64"@ {
        Arch::X64
    } else if name == "aarch64"@ || name == "arm64"@ {
        Arch::Arm64
    } else if name == "x86"@ || name == "i686"@ || name == "i386"@ {
        Arch::X86
    } else {
        Arch::X64
    }
}

/// The names that release assets use for an OS.
pub open spec fn os_patterns(os: Os) -> Seq<Seq<char>> {
    match os {
        Os::Linux => seq!["linux"@, "unknown-linux"@],
        Os::MacOS => seq!["darwin"@, "macos"@, "apple-darwin"@, "apple"@],
        Os::Windows => seq!["windows"@, "win"@, "pc-windows"@],
    }
}

/// The names that release assets use for an architecture.
pub open spec fn arch_patterns(arch: Arch) -> Seq<Seq<char>> {
    match arch {
        Arch::X64 => seq!["x86_64"@, "x64"@, "amd64"@],
        Arch::Arm64 => seq!["aarch64"@, "arm64"@],
        Arch::X86 => seq!["i686"@, "x86"@, "i386"@],
    }
}

/// The three combined names of an OS and an architecture.
pub open spec fn combined(os: Seq<char>, arch: Seq<char>) -> Seq<Seq<char>> {
    seq![os + "_"@ + arch, arch + "-"@ + os, arch + "-unknown-"@ + os]
}

/// The combined names of an OS with the first `n` architectures.
pub open spec fn combined_for_os(os: Seq<char>, archs: Seq<Seq<char>>, n: int) -> Seq<Seq<char>>
    decreases n,
{
    if n <= 0 || n > archs.len() {
        Seq::empty()
    } else {
        combined_for_os(os, archs, n - 1) + combined(os, archs[n - 1])
    }
}

/// The combined names of the first `m` OS names with every architecture.
pub open spec fn combined_all(oses: Seq<Seq<char>>, archs: Seq<Seq<char>>, m: int) -> Seq<Seq<char>>
    decreases m,
{
    if m <= 0 || m > oses.len() {
        Seq::empty()
    } else {
        combined_all(oses, archs, m - 1) + combined_for_os(oses[m - 1], archs, archs.len() as int)
    }
}

/// The target patterns of a platform: the combined names, most specific
/// first, then the OS names alone.
pub open spec fn target_patterns(p: Platform) -> Seq<Seq<char>> {
    combined_all(os_patterns(p.os), arch_patterns(p.arch), os_patterns(p.os).len() as int)
        + os_patterns(p.os)
}

/// The Rust target triple of a platform.
pub open spec fn target_triple_spec(p: Platform) -> Seq<char> {
    match (p.os, p.arch) {
        (Os::Linux, Arch::X64) => "x86_64-unknown-linux-gnu"@,
        (Os::Linux, Arch::Arm64) => "aarch64-unknown-linux-gnu"@,
        (Os::Linux, Arch::X86) => "i686-unknown-linux-gnu"@,
        (Os::MacOS, Arch::X64) => "x86_64-apple-darwin"@,
        (Os::MacOS, Arch::Arm64) => "aarch64-apple-darwin"@,
        (Os::MacOS, Arch::X86) => "i686-apple-darwin"@,
        (Os::Windows, Arch::X64) => "x86_64-pc-windows-msvc"@,
        (Os::Windows, Arch::Arm64) => "aarch64-pc-windows-msvc"@,
        (Os::Windows, Arch::X86) => "i686-pc-windows-msvc"@,
    }
}

/// The name of an OS.
pub open spec fn os_name(os: Os) -> Seq<char> {
    match os {
        Os::Linux => "Linux"@,
        Os::MacOS => "MacOS"@,
        Os::Windows => "Windows"@,
    }
}

/// The name of an architecture.
pub open spec fn arch_name(arch: Arch) -> Seq<char> {
    match arch {
        Arch::X64 => "X64"@,
        Arch::Arm64 => "Arm64"@,
        Arch::X86 => "X86"@,
    }
}

/// The name of an OS.
fn os_name_exec(os: Os) -> (r: &'static str)
    ensures
        r@ == os_name(os),
{
    match os {
        Os::Linux => "Linux",
        Os::MacOS => "MacOS",
        Os::Windows => "Windows",
    }
}

/// The name of an architecture.
fn arch_name_exec(arch: Arch) -> (r: &'static str)
    ensures
        r@ == arch_name(arch),
{
    match arch {
        Arch::X64 => "X64",
        Arch::Arm64 => "Arm64",
        Arch::X86 => "X86",
    }
}

/// A string joined from three parts.
fn join3(a: &str, b: &str, c: &str) -> (r: String)
    ensures
        r@ == a@ + b@ + c@,
{
    let mut s = copy_str(a);
    crate::text::push_str(&mut s, b);
    crate::text::push_str(&mut s, c);
    s
}

impl Platform {
    /// Detects the platform from Rust's OS and architecture names, and
    /// whether the system is a Unix.
    pub fn detect(os: &str, arch: &str, unix: bool) -> (r: Self)
        ensures
            r.os == os_of(os@, unix),
            r.arch == arch_of(arch@),
    {
        Platform { os: Self::detect_os(os, unix), arch: Self::detect_arch(arch) }
    }

    /// Creates a platform with explicit OS and architecture.
    pub fn new(os: Os, arch: Arch) -> (r: Self)
        ensures
            r.os == os,
            r.arch == arch,
    {
        Platform { os, arch }
    }

    /// The OS that a Rust OS name denotes.
    pub fn detect_os(name: &str, unix: bool) -> (r: Os)
        ensures
            r == os_of(name@, unix),
    {
        if str_eq(name, "linux") {
            Os::Linux
        } else if str_eq(name, "macos") {
            Os::MacOS
        } else if str_eq(name, "windows") {
            Os::Windows
        } else if unix {
            Os::Linux
        } else {
            Os::Windows
        }
    }

    /// The architecture that a Rust architecture name denotes.
    pub fn detect_arch(name: &str) -> (r: Arch)
        ensures
            r == arch_of(name@),
    {
        if str_eq(name, "x86_64") || str_eq(name, "amd64") {
            Arch::X64
        } else if str_eq(name, "aarch64") || str_eq(name, "arm64") {
            Arch::Arm64
        } else if str_eq(name, "x86") || str_eq(name, "i686") || str_eq(name, "i386") {
            Arch::X86
        } else {
            Arch::X64
        }
    }

    /// Returns target patterns for matching assets.
    pub fn get_target_patterns(&self) -> (r: Vec<String>)
        ensures
            views(r@) == target_patterns(*self),
    {
        let oses: Vec<&str> = match self.os {
            Os::Linux => vec!["linux", "unknown-linux"],
            Os::MacOS => vec!["darwin", "macos", "apple-darwin", "apple"],
            Os::Windows => vec!["windows", "win", "pc-windows"],
        };
        let archs: Vec<&str> = match self.arch {
            Arch::X64 => vec!["x86_64", "x64", "amd64"],
            Arch::Arm64 => vec!["aarch64", "arm64"],
            Arch::X86 => vec!["i686", "x86", "i386"],
        };
        let ghost ov = crate::text::str_views(oses@);
        let ghost av = crate::text::str_views(archs@);
        assert(ov =~= os_patterns(self.os));
        assert(av =~= arch_patterns(self.arch));
        let mut patterns: Vec<String> = Vec::new();
        let mut i: usize = 0;
        while i < oses.len()
            invariant
                0 <= i <= oses.len(),
                ov == crate::text::str_views(oses@),
                av == crate::text::str_views(archs@),
                views(patterns@) == combined_all(ov, av, i as int),
            decreases oses.len() - i,
        {
            assert(ov[i as int] == oses@[i as int]@);
            let ghost base = views(patterns@);
            let mut j: usize = 0;
            while j < archs.len()
                invariant
                    0 <= j <= archs.len(),
                    i < oses.len(),
                    ov == crate::text::str_views(oses@),
                    av == crate::text::str_views(archs@),
                    ov[i as int] == oses@[i as int]@,
                    views(patterns@) == base + combined_for_os(ov[i as int], av, j as int),
                decreases archs.len() - j,
            {
                assert(av[j as int] == archs@[j as int]@);
                let ghost before = views(patterns@);
                patterns.push(join3(oses[i], "_", archs[j]));
                patterns.push(join3(archs[j], "-", oses[i]));
                patterns.push(join3(archs[j], "-unknown-", oses[i]));
                assert(views(patterns@) =~= before + combined(ov[i as int], av[j as int]));
                j = j + 1;
            }
            i = i + 1;
        }
        let mut k: usize = 0;
        let ghost base = views(patterns@);
        while k < oses.len()
            invariant
                0 <= k <= oses.len(),
                ov == crate::text::str_views(oses@),
                views(patterns@) == base + ov.take(k as int),
            decreases oses.len() - k,
        {
            let ghost before = views(patterns@);
            patterns.push(copy_str(oses[k]));
            assert(views(patterns@) =~= before.push(oses@[k as int]@));
            assert(ov.take(k + 1) =~= ov.take(k as int).push(ov[k as int]));
            k = k + 1;
        }
        assert(ov.take(oses.len() as int) =~= ov);
        patterns
    }

    /// Returns the Rust target triple for this platform.
    pub fn target_triple(&self) -> (r: &'static str)
        ensures
            r@ == target_triple_spec(*self),
    {
        match (self.os, self.arch) {
            (Os::Linux, Arch::X64) => "x86_64-unknown-linux-gnu",
            (Os::Linux, Arch::Arm64) => "aarch64-unknown-linux-gnu",
            (Os::Linux, Arch::X86) => "i686-unknown-linux-gnu",
            (Os::MacOS, Arch::X64) => "x86_64-apple-darwin",
            (Os::MacOS, Arch::Arm64) => "aarch64-apple-darwin",
            (Os::MacOS, Arch::X86) => "i686-apple-darwin",
            (Os::Windows, Arch::X64) => "x86_64-pc-windows-msvc",
            (Os::Windows, Arch::Arm64) => "aarch64-pc-windows-msvc",
            (Os::Windows, Arch::X86) => "i686-pc-windows-msvc",
        }
    }

    /// Returns the file extension for executables on this platform.
    pub fn exe_extension(&self) -> (r: &'static str)
        ensures
            r@ == (if self.os == Os::Windows {
                ".exe"@
            } else {
                ""@
            }),
    {
        match self.os {
            Os::Windows => ".exe",
            _ => "",
        }
    }

    /// The platform as `OS/architecture`, e.g. `Linux/X64`.
    pub fn display(&self) -> (r: String)
        ensures
            r@ == os_name(self.os) + "/"@ + arch_name(self.arch),
    {
        join3(os_name_exec(self.os), "/", arch_name_exec(self.arch))
    }
}

} // verus!
