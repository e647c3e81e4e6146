//! Which directories and files count when repository metrics are gathered,
//! and the comparisons that metric conditions make.
use vstd::prelude::*;

use crate::text::{lowercase, str_eq, to_lowercase};

verus! {

/// Comparison operators of metric conditions.
#[derive(Debug, Clone, Copy, PartialEq, Eq, Structural)]
pub enum ComparisonOp {
    Equals,
    NotEquals,
    GreaterThan,
    GreaterThanOrEqual,
    LessThan,
    LessThanOrEqual,
    Between,
}

/// Directories that hold dependencies, build output or tool state.
pub open spec fn skipped_dirs() -> Seq<Seq<char>> {
    seq![
        "node_modules"@, "target"@, "build"@, "dist"@, "vendor"@, "__pycache__"@, ".git"@, ".svn"@,
        ".hg"@, "venv"@, ".venv"@, "env"@, ".env"@,
    ]
}

/// Extensions of source code files, lower case.
pub open spec fn source_extensions() -> Seq<Seq<char>> {
    seq![
        "rs"@, "py"@, "js"@, "ts"@, "jsx"@, "tsx"@, "go"@, "java"@, "kt"@, "scala"@, "rb"@, "php"@,
        "c"@, "cpp"@, "cc"@, "cxx"@, "h"@, "hpp"@, "cs"@, "fs"@, "swift"@, "m"@, "mm"@, "vue"@,
        "svelte"@, "lua"@, "pl"@, "pm"@, "r"@, "jl"@, "hs"@, "elm"@, "ex"@, "exs"@, "erl"@, "clj"@,
        "cljs"@, "lisp"@, "scm"@, "ml"@, "mli"@,
    ]
}

/// Whether a name is one of the listed names.
fn one_of(name: &str, names: &[&str], Ghost(spec_names): Ghost<Seq<Seq<char>>>) -> (r: bool)
    requires
        names@.map_values(|s: &str| s@) == spec_names,
    ensures
        r == spec_names.contains(name@),
{
    let mut i: usize = 0;
    while i < names.len()
        invariant
            0 <= i <= names@.len(),
            names@.map_values(|s: &str| s@) == spec_names,
            forall|j: int| 0 <= j < i ==> spec_names[j] != name@,
        decreases names.len() - i,
    {
        assert(spec_names[i as int] == names@[i as int]@);
        if str_eq(names[i], name) {
            return true;
        }
        i = i + 1;
    }
    false
}

/// Whether a directory is passed over when walking a repository.
pub fn should_skip_dir(name: &str) -> (r: bool)
    ensures
        r == skipped_dirs().contains(name@),
{
    let names: &[&str] = &[
        "node_modules", "target", "build", "dist", "vendor", "__pycache__", ".git", ".svn", ".hg",
        "venv", ".venv", "env", ".env",
    ];
    assert(names@.map_values(|s: &str| s@) =~= skipped_dirs());
    one_of(name, names, Ghost(skipped_dirs()))
}

/// Whether a file extension is one of source code, ignoring case.
pub fn is_source_extension(ext: &str) -> (r: bool)
    ensures
        r == source_extensions().contains(lowercase(ext@)),
{
    let lower = to_lowercase(ext);
    let names: &[&str] = &[
        "rs", "py", "js", "ts", "jsx", "tsx", "go", "java", "kt", "scala", "rb", "php", "c", "cpp",
        "cc", "cxx", "h", "hpp", "cs", "fs", "swift", "m", "mm", "vue", "svelte", "lua", "pl", "pm",
        "r", "jl", "hs", "elm", "ex", "exs", "erl", "clj", "cljs", "lisp", "scm", "ml", "mli",
    ];
    assert(names@.map_values(|s: &str| s@) =~= source_extensions());
    one_of(lower.as_str(), names, Ghost(source_extensions()))
}

} // verus!
