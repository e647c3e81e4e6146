//! Dependency-based repository filtering.
use vstd::prelude::*;

use super::manifest::{
    bundler_deps, cargo_deps, composer_deps, gomod_deps, gradle_deps, maven_deps, npm_deps,
    nuget_file_deps, pip_deps, read_bundler_deps, read_cargo_deps, read_composer_deps,
    read_gomod_deps, read_gradle_deps, read_maven_deps, read_npm_deps, read_nuget_file,
    read_pip_deps, DepsView,
};
use super::snapshot::RepoSnapshot;
use super::version::{constraint_matches, VersionConstraint};
use crate::scan::{extension, extension_exec};
use crate::strmap::StrMap;
use crate::text::{chars_eq, chars_of, copy_str, views};

verus! {

/// Package manager types.
#[derive(Debug, Clone, Copy, PartialEq, Eq, Hash, Structural)]
pub enum PackageManager {
    /// Rust/Cargo (Cargo.toml)
    Cargo,
    /// Node.js/npm (package.json)
    Npm,
    /// Python/pip (requirements.txt, pyproject.toml, setup.py)
    Pip,
    /// Java/Maven (pom.xml)
    Maven,
    /// Java/Gradle (build.gradle)
    Gradle,
    /// Ruby/Bundler (Gemfile)
    Bundler,
    /// Go modules (go.mod)
    GoMod,
    /// .NET/NuGet (*.csproj, packages.config)
    NuGet,
    /// PHP/Composer (composer.json)
    Composer,
}

/// A root entry whose extension is `csproj`.
pub open spec fn is_csproj(name: Seq<char>) -> bool {
    extension(name) == Some("csproj"@)
}

/// The repository's root holds a `.csproj` entry.
pub open spec fn has_csproj_spec(repo: RepoSnapshot) -> bool {
    exists|i: int| 0 <= i < repo.entries@.len() && is_csproj(#[trigger] repo.entries@[i]@)
}

/// The package managers whose manifests the repository holds, in this order:
/// Cargo, npm, pip, Maven, Gradle, Bundler, Go modules, NuGet, Composer.
pub open spec fn detected_managers(repo: RepoSnapshot) -> Seq<PackageManager> {
    let s0 = Seq::<PackageManager>::empty();
    let s1 = if repo.has_path("Cargo.toml"@) {
        s0.push(PackageManager::Cargo)
    } else {
        s0
    };
    let s2 = if repo.has_path("package.json"@) {
        s1.push(PackageManager::Npm)
    } else {
        s1
    };
    let s3 = if repo.has_path("requirements.txt"@) || repo.has_path("pyproject.toml"@)
        || repo.has_path("setup.py"@) {
        s2.push(PackageManager::Pip)
    } else {
        s2
    };
    let s4 = if repo.has_path("pom.xml"@) {
        s3.push(PackageManager::Maven)
    } else {
        s3
    };
    let s5 = if repo.has_path("build.gradle"@) || repo.has_path("build.gradle.kts"@) {
        s4.push(PackageManager::Gradle)
    } else {
        s4
    };
    let s6 = if repo.has_path("Gemfile"@) {
        s5.push(PackageManager::Bundler)
    } else {
        s5
    };
    let s7 = if repo.has_path("go.mod"@) {
        s6.push(PackageManager::GoMod)
    } else {
        s6
    };
    let s8 = if repo.has_path("packages.config"@) || has_csproj_spec(repo) {
        s7.push(PackageManager::NuGet)
    } else {
        s7
    };
    if repo.has_path("composer.json"@) {
        s8.push(PackageManager::Composer)
    } else {
        s8
    }
}

/// The dependencies of one manifest, none when it cannot be read.
pub open spec fn manifest_or_empty(content: Option<Seq<char>>, deps: spec_fn(Seq<char>) -> DepsView) -> DepsView {
    match content {
        Some(c) => deps(c),
        None => Map::empty(),
    }
}

/// The package references of the root's project files, in listing order.
pub open spec fn nuget_deps(repo: RepoSnapshot) -> DepsView {
    views(repo.entries@).fold_left(
        Map::empty(),
        |m: DepsView, name: Seq<char>|
            if is_csproj(name) {
                match repo.content_at(name) {
                    Some(c) => nuget_file_deps(m, c),
                    None => m,
                }
            } else {
                m
            },
    )
}

/// The dependencies that the manifests of one package manager declare.
pub open spec fn deps_of(repo: RepoSnapshot, pm: PackageManager) -> DepsView {
    match pm {
        PackageManager::Cargo => manifest_or_empty(repo.content_at("Cargo.toml"@), |c| cargo_deps(c)),
        PackageManager::Npm => manifest_or_empty(repo.content_at("package.json"@), |c| npm_deps(c)),
        PackageManager::Pip => pip_deps(
            repo.content_at("requirements.txt"@),
            repo.content_at("pyproject.toml"@),
        ),
        PackageManager::Maven => manifest_or_empty(repo.content_at("pom.xml"@), |c| maven_deps(c)),
        PackageManager::Gradle => gradle_deps(
            repo.content_at("build.gradle"@),
            repo.content_at("build.gradle.kts"@),
        ),
        PackageManager::Bundler => manifest_or_empty(repo.content_at("Gemfile"@), |c| bundler_deps(c)),
        PackageManager::GoMod => manifest_or_empty(repo.content_at("go.mod"@), |c| gomod_deps(c)),
        PackageManager::NuGet => nuget_deps(repo),
        PackageManager::Composer => manifest_or_empty(
            repo.content_at("composer.json"@),
            |c| composer_deps(c),
        ),
    }
}

/// Filter repositories by their dependencies.
#[derive(Debug)]
pub struct DependencyFilter {
    /// Required dependencies (name -> version constraint).
    pub required: StrMap<VersionConstraint>,
    /// Excluded dependencies.
    pub excluded: Vec<String>,
    /// Package manager to check.
    pub package_manager: Option<PackageManager>,
}

/// One package manager's dependencies meet the filter: every required name is
/// there with a version its constraint accepts, and no excluded name is.
pub open spec fn deps_satisfy(f: DependencyFilter, d: DepsView) -> bool {
    &&& forall|k: Seq<char>| #[trigger]
        f.required@.dom().contains(k) ==> d.dom().contains(k) && constraint_matches(
            f.required@[k],
            d[k],
        )
    &&& forall|j: int| 0 <= j < f.excluded@.len() ==> !d.dom().contains(#[trigger] f.excluded@[j]@)
}

/// A repository matches the filter: it uses the required package manager (if
/// any), every detected package manager's dependencies meet the filter, and
/// a repository without any package manager matches only a filter that asks
/// for nothing.
pub open spec fn filter_matches(f: DependencyFilter, repo: RepoSnapshot) -> bool {
    let det = detected_managers(repo);
    &&& match f.package_manager {
        Some(pm) => det.contains(pm),
        None => true,
    }
    &&& forall|i: int| 0 <= i < det.len() ==> deps_satisfy(f, #[trigger] deps_of(repo, det[i]))
    &&& !(det.len() == 0 && (f.required@.dom() != Set::<Seq<char>>::empty() || f.excluded@.len()
        > 0))
}

/// Whether the list holds the package manager.
pub fn contains_manager(v: &Vec<PackageManager>, pm: PackageManager) -> (r: bool)
    ensures
        r == v@.contains(pm),
{
    let mut i: usize = 0;
    while i < v.len()
        invariant
            0 <= i <= v.len(),
            forall|j: int| 0 <= j < i ==> v@[j] != pm,
        decreases v.len() - i,
    {
        if v[i] == pm {
            return true;
        }
        i = i + 1;
    }
    false
}

impl DependencyFilter {
    /// Create a new dependency filter.
    pub fn new() -> (r: Self)
        ensures
            r.required@ == Map::<Seq<char>, super::version::ConstraintSpec>::empty(),
            r.excluded@.len() == 0,
            r.package_manager is None,
    {
        DependencyFilter { required: StrMap::new(), excluded: Vec::new(), package_manager: None }
    }

    /// Require a specific package manager.
    pub fn package_manager(self, pm: PackageManager) -> (r: Self)
        ensures
            r.required@ == self.required@,
            r.excluded@ == self.excluded@,
            r.package_manager == Some(pm),
    {
        DependencyFilter { package_manager: Some(pm), ..self }
    }

    /// Require a dependency with any version.
    pub fn has(self, name: &str) -> (r: Self)
        ensures
            r.required@ == self.required@.insert(name@, super::version::ConstraintSpec::Any),
            r.excluded@ == self.excluded@,
            r.package_manager == self.package_manager,
    {
        let mut s = self;
        s.required.insert(copy_str(name), VersionConstraint::Any);
        s
    }

    /// Require a dependency with a version constraint, parsed from its text.
    pub fn has_version(self, name: &str, version: &str) -> (r: Self)
        ensures
            r.required@ == self.required@.insert(
                name@,
                super::version::parse_constraint(version@),
            ),
            r.excluded@ == self.excluded@,
            r.package_manager == self.package_manager,
    {
        let mut s = self;
        s.required.insert(copy_str(name), VersionConstraint::parse(version));
        s
    }

    /// Require a dependency with at least the specified version.
    pub fn has_at_least(self, name: &str, version: &str) -> (r: Self)
        ensures
            r.required@ == self.required@.insert(
                name@,
                super::version::ConstraintSpec::AtLeast(version@),
            ),
            r.excluded@ == self.excluded@,
            r.package_manager == self.package_manager,
    {
        let mut s = self;
        s.required.insert(copy_str(name), VersionConstraint::AtLeast(copy_str(version)));
        s
    }

    /// Exclude a dependency.
    pub fn excludes(self, name: &str) -> (r: Self)
        ensures
            r.required@ == self.required@,
            views(r.excluded@) == views(self.excluded@).push(name@),
            r.package_manager == self.package_manager,
    {
        let mut s = self;
        let ghost old_ex = s.excluded@;
        s.excluded.push(copy_str(name));
        assert(views(s.excluded@) =~= views(old_ex).push(name@));
        s
    }

    /// Whether one package manager's dependencies meet the filter.
    fn deps_ok(&self, deps: &StrMap<String>) -> (r: bool)
        ensures
            r == deps_satisfy(*self, deps@),
    {
        let n = self.required.len();
        let mut i: usize = 0;
        while i < n
            invariant
                0 <= i <= n,
                n == self.required.spec_len(),
                forall|j: int|
                    0 <= j < n ==> #[trigger] self.required@.dom().contains(
                        self.required.key_at_spec(j),
                    ) && self.required@[self.required.key_at_spec(j)]
                        == self.required.value_at_spec(j),
                forall|j: int|
                    0 <= j < i ==> deps@.dom().contains(#[trigger] self.required.key_at_spec(j))
                        && constraint_matches(
                        self.required.value_at_spec(j),
                        deps@[self.required.key_at_spec(j)],
                    ),
            decreases n - i,
        {
            let name = self.required.key_at(i);
            let constraint = self.required.value_at(i);
            match deps.get(name.as_str()) {
                Some(version) => {
                    if !constraint.matches(version.as_str()) {
                        proof {
                            assert(self.required@.dom().contains(name@));
                        }
                        return false;
                    }
                },
                None => {
                    proof {
                        assert(self.required@.dom().contains(name@));
                    }
                    return false;
                },
            }
            i = i + 1;
        }
        assert forall|k: Seq<char>| #[trigger] self.required@.dom().contains(k) implies deps@.dom().contains(k)
            && constraint_matches(self.required@[k], deps@[k]) by {
            let j = choose|j: int| 0 <= j < self.required.spec_len() && self.required.key_at_spec(j) == k;
            assert(deps@.dom().contains(self.required.key_at_spec(j)));
        }
        let mut e: usize = 0;
        while e < self.excluded.len()
            invariant
                0 <= e <= self.excluded.len(),
                forall|j: int| 0 <= j < e ==> !deps@.dom().contains(#[trigger] self.excluded@[j]@),
            decreases self.excluded.len() - e,
        {
            if deps.contains_key(self.excluded[e].as_str()) {
                return false;
            }
            e = e + 1;
        }
        true
    }

    /// Check if a repository matches this filter.
    pub fn matches(&self, repo: &RepoSnapshot) -> (r: bool)
        ensures
            r == filter_matches(*self, *repo),
    {
        let detected = self.detect_package_managers(repo);
        match self.package_manager {
            Some(pm) => {
                if !contains_manager(&detected, pm) {
                    return false;
                }
            },
            None => {},
        }
        let mut i: usize = 0;
        while i < detected.len()
            invariant
                0 <= i <= detected.len(),
                detected@ == detected_managers(*repo),
                forall|j: int| 0 <= j < i ==> deps_satisfy(*self, #[trigger] deps_of(*repo, detected@[j])),
            decreases detected.len() - i,
        {
            let deps = self.read_dependencies(repo, detected[i]);
            if !self.deps_ok(&deps) {
                return false;
            }
            i = i + 1;
        }
        if detected.len() == 0 && (!self.required.is_empty() || self.excluded.len() > 0) {
            return false;
        }
        true
    }

    /// Detect package managers in a repository.
    pub fn detect_package_managers(&self, repo: &RepoSnapshot) -> (r: Vec<PackageManager>)
        ensures
            r@ == detected_managers(*repo),
    {
        let mut managers: Vec<PackageManager> = Vec::new();
        if repo.path_exists("Cargo.toml") {
            managers.push(PackageManager::Cargo);
        }
        if repo.path_exists("package.json") {
            managers.push(PackageManager::Npm);
        }
        if repo.path_exists("requirements.txt") || repo.path_exists("pyproject.toml")
            || repo.path_exists("setup.py") {
            managers.push(PackageManager::Pip);
        }
        if repo.path_exists("pom.xml") {
            managers.push(PackageManager::Maven);
        }
        if repo.path_exists("build.gradle") || repo.path_exists("build.gradle.kts") {
            managers.push(PackageManager::Gradle);
        }
        if repo.path_exists("Gemfile") {
            managers.push(PackageManager::Bundler);
        }
        if repo.path_exists("go.mod") {
            managers.push(PackageManager::GoMod);
        }
        if repo.path_exists("packages.config") || self.has_csproj(repo) {
            managers.push(PackageManager::NuGet);
        }
        if repo.path_exists("composer.json") {
            managers.push(PackageManager::Composer);
        }
        managers
    }

    /// Check if the root directory has `.csproj` entries.
    pub fn has_csproj(&self, repo: &RepoSnapshot) -> (r: bool)
        ensures
            r == has_csproj_spec(*repo),
    {
        let csproj = chars_of("csproj");
        let mut i: usize = 0;
        while i < repo.entries.len()
            invariant
                0 <= i <= repo.entries.len(),
                csproj@ == "csproj"@,
                forall|j: int| 0 <= j < i ==> !is_csproj(#[trigger] repo.entries@[j]@),
            decreases repo.entries.len() - i,
        {
            match extension_exec(&chars_of(repo.entries[i].as_str())) {
                Some(ext) => {
                    if chars_eq(&ext, &csproj) {
                        return true;
                    }
                },
                None => {},
            }
            i = i + 1;
        }
        false
    }

    /// Read the dependencies that one package manager's manifests declare.
    pub fn read_dependencies(&self, repo: &RepoSnapshot, pm: PackageManager) -> (r: StrMap<String>)
        ensures
            r@ == deps_of(*repo, pm),
    {
        match pm {
            PackageManager::Cargo => match repo.content("Cargo.toml") {
                Some(c) => read_cargo_deps(c.as_str()),
                None => StrMap::new(),
            },
            PackageManager::Npm => match repo.content("package.json") {
                Some(c) => read_npm_deps(c.as_str()),
                None => StrMap::new(),
            },
            PackageManager::Pip => {
                let req = match repo.content("requirements.txt") {
                    Some(c) => Some(c.as_str()),
                    None => None,
                };
                let py = match repo.content("pyproject.toml") {
                    Some(c) => Some(c.as_str()),
                    None => None,
                };
                read_pip_deps(req, py)
            },
            PackageManager::Maven => match repo.content("pom.xml") {
                Some(c) => read_maven_deps(c.as_str()),
                None => StrMap::new(),
            },
            PackageManager::Gradle => {
                let groovy = match repo.content("build.gradle") {
                    Some(c) => Some(c.as_str()),
                    None => None,
                };
                let kotlin = match repo.content("build.gradle.kts") {
                    Some(c) => Some(c.as_str()),
                    None => None,
                };
                read_gradle_deps(groovy, kotlin)
            },
            PackageManager::Bundler => match repo.content("Gemfile") {
                Some(c) => read_bundler_deps(c.as_str()),
                None => StrMap::new(),
            },
            PackageManager::GoMod => match repo.content("go.mod") {
                Some(c) => read_gomod_deps(c.as_str()),
                None => StrMap::new(),
            },
            PackageManager::NuGet => self.read_nuget_deps(repo),
            PackageManager::Composer => match repo.content("composer.json") {
                Some(c) => read_composer_deps(c.as_str()),
                None => StrMap::new(),
            },
        }
    }

    /// Read the package references of the root's project files.
    pub fn read_nuget_deps(&self, repo: &RepoSnapshot) -> (r: StrMap<String>)
        ensures
            r@ == nuget_deps(*repo),
    {
        let csproj = chars_of("csproj");
        let ghost names = views(repo.entries@);
        let ghost f = |m: DepsView, name: Seq<char>|
            if is_csproj(name) {
                match repo.content_at(name) {
                    Some(c) => nuget_file_deps(m, c),
                    None => m,
                }
            } else {
                m
            };
        let mut m: StrMap<String> = StrMap::new();
        let mut i: usize = 0;
        while i < repo.entries.len()
            invariant
                0 <= i <= repo.entries.len(),
                csproj@ == "csproj"@,
                names == views(repo.entries@),
                f == (|m: DepsView, name: Seq<char>|
                    if is_csproj(name) {
                        match repo.content_at(name) {
                            Some(c) => nuget_file_deps(m, c),
                            None => m,
                        }
                    } else {
                        m
                    }),
                m@ == names.take(i as int).fold_left(Map::empty(), f),
            decreases repo.entries.len() - i,
        {
            assert(names.take(i + 1).drop_last() =~= names.take(i as int));
            assert(names[i as int] == repo.entries@[i as int]@);
            let name = repo.entries[i].as_str();
            let is_proj = match extension_exec(&chars_of(name)) {
                Some(ext) => chars_eq(&ext, &csproj),
                None => false,
            };
            if is_proj {
                match repo.content(name) {
                    Some(c) => read_nuget_file(c.as_str(), &mut m),
                    None => {},
                }
            }
            i = i + 1;
        }
        assert(names.take(repo.entries.len() as int) =~= names);
        m
    }
}

/// Detected dependencies in a repository.
#[derive(Debug)]
pub struct DependencyInfo {
    /// Package managers detected.
    pub package_managers: Vec<PackageManager>,
    /// Dependencies by package manager, in detection order.
    pub dependencies: Vec<(PackageManager, StrMap<String>)>,
}

impl DependencyInfo {
    /// Analyze dependencies in a repository.
    pub fn analyze(repo: &RepoSnapshot) -> (r: Self)
        ensures
            r.package_managers@ == detected_managers(*repo),
            r.dependencies@.len() == r.package_managers@.len(),
            forall|i: int|
                0 <= i < r.dependencies@.len() ==> (#[trigger] r.dependencies@[i]).0
                    == r.package_managers@[i] && r.dependencies@[i].1@ == deps_of(
                    *repo,
                    r.package_managers@[i],
                ),
    {
        let filter = DependencyFilter::new();
        let managers = filter.detect_package_managers(repo);
        let mut dependencies: Vec<(PackageManager, StrMap<String>)> = Vec::new();
        let mut i: usize = 0;
        while i < managers.len()
            invariant
                0 <= i <= managers.len(),
                dependencies@.len() == i,
                forall|j: int|
                    0 <= j < i ==> (#[trigger] dependencies@[j]).0 == managers@[j]
                        && dependencies@[j].1@ == deps_of(*repo, managers@[j]),
            decreases managers.len() - i,
        {
            let pm = managers[i];
            let deps = filter.read_dependencies(repo, pm);
            dependencies.push((pm, deps));
            i = i + 1;
        }
        DependencyInfo { package_managers: managers, dependencies }
    }

    /// Check if a dependency exists under any package manager.
    pub fn has_dependency(&self, name: &str) -> (r: bool)
        ensures
            r == exists|i: int|
                0 <= i < self.dependencies@.len() && (#[trigger] self.dependencies@[i]).1@.dom().contains(
                    name@,
                ),
    {
        let mut i: usize = 0;
        while i < self.dependencies.len()
            invariant
                0 <= i <= self.dependencies.len(),
                forall|j: int|
                    0 <= j < i ==> !(#[trigger] self.dependencies@[j]).1@.dom().contains(name@),
            decreases self.dependencies.len() - i,
        {
            if self.dependencies[i].1.contains_key(name) {
                return true;
            }
            i = i + 1;
        }
        false
    }

    /// Get the version of a dependency: from the first package manager that
    /// declares it.
    pub fn get_version(&self, name: &str) -> (r: Option<&String>)
        ensures
            match r {
                Some(v) => exists|i: int|
                    0 <= i < self.dependencies@.len() && (#[trigger] self.dependencies@[i]).1@.dom().contains(
                        name@,
                    ) && v@ == self.dependencies@[i].1@[name@] && forall|j: int|
                        0 <= j < i ==> !(#[trigger] self.dependencies@[j]).1@.dom().contains(
                            name@,
                        ),
                None => forall|i: int|
                    0 <= i < self.dependencies@.len() ==> !(#[trigger] self.dependencies@[i]).1@.dom().contains(
                        name@,
                    ),
            },
    {
        let mut i: usize = 0;
        while i < self.dependencies.len()
            invariant
                0 <= i <= self.dependencies.len(),
                forall|j: int|
                    0 <= j < i ==> !(#[trigger] self.dependencies@[j]).1@.dom().contains(name@),
            decreases self.dependencies.len() - i,
        {
            match self.dependencies[i].1.get(name) {
                Some(v) => {
                    return Some(v);
                },
                None => {},
            }
            i = i + 1;
        }
        None
    }
}

} // verus!
