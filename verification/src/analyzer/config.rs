//! Transforms written down in upgrade configurations.
use vstd::prelude::*;

use super::generator::{cat3, pattern_replacement, regex_escape, regex_escaped, Transform};

verus! {

/// A transform as a configuration writes it.
#[derive(Debug, Clone)]
pub enum TransformSpec {
    /// Replace a literal string with another.
    ReplaceLiteral { from: String, to: String },
    /// Replace using a regex pattern.
    ReplacePattern { pattern: String, replacement: String },
    /// Rename a function (generates appropriate pattern).
    RenameFunction { old_name: String, new_name: String },
    /// Rename a type (generates appropriate pattern).
    RenameType { old_name: String, new_name: String },
    /// Update an import path.
    RenameImport { old_path: String, new_path: String },
}

/// The regex pattern and replacement of a configured transform: an escaped
/// literal, a pattern as written, calls of a renamed function (also with a
/// turbofish), whole-word uses of a renamed type, quoted import paths.
pub open spec fn spec_pattern_replacement(t: TransformSpec) -> (Seq<char>, Seq<char>) {
    match t {
        TransformSpec::ReplaceLiteral { from, to } => (regex_escaped(from@), to@),
        TransformSpec::ReplacePattern { pattern, replacement } => (pattern@, replacement@),
        TransformSpec::RenameFunction { old_name, new_name } => (
            "\\b"@ + regex_escaped(old_name@) + "\\s*(\\(|::<)"@,
            new_name@ + "$1"@,
        ),
        TransformSpec::RenameType { old_name, new_name } => (
            "\\b"@ + regex_escaped(old_name@) + "\\b"@,
            new_name@,
        ),
        TransformSpec::RenameImport { old_path, new_path } => (
            "(['\"])"@ + regex_escaped(old_path@) + "\\1"@,
            "$1"@ + new_path@ + "$1"@,
        ),
    }
}

impl TransformSpec {
    /// Convert this spec to a pattern and replacement.
    pub fn to_pattern_replacement(&self) -> (r: (String, String))
        ensures
            (r.0@, r.1@) == spec_pattern_replacement(*self),
    {
        match self {
            TransformSpec::ReplaceLiteral { from, to } => (regex_escape(from.as_str()), to.clone()),
            TransformSpec::ReplacePattern { pattern, replacement } => (pattern.clone(), replacement.clone()),
            TransformSpec::RenameFunction { old_name, new_name } => {
                let pattern = cat3("\\b", regex_escape(old_name.as_str()).as_str(), "\\s*(\\(|::<)");
                let mut replacement = new_name.clone();
                crate::text::push_str(&mut replacement, "$1");
                (pattern, replacement)
            },
            TransformSpec::RenameType { old_name, new_name } => {
                let pattern = cat3("\\b", regex_escape(old_name.as_str()).as_str(), "\\b");
                (pattern, new_name.clone())
            },
            TransformSpec::RenameImport { old_path, new_path } => {
                let pattern = cat3("(['\"])", regex_escape(old_path.as_str()).as_str(), "\\1");
                let replacement = cat3("$1", new_path.as_str(), "$1");
                (pattern, replacement)
            },
        }
    }
}

/// The configured form of a generated transform: renames keep their kind,
/// other transforms are written as their pattern and replacement.
pub open spec fn spec_of_transform(t: Transform, s: TransformSpec) -> bool {
    match t {
        Transform::FunctionRename { old_name, new_name } => s matches TransformSpec::RenameFunction {
            old_name: o,
            new_name: n,
        } && o@ == old_name@ && n@ == new_name@,
        Transform::TypeRename { old_name, new_name } => s matches TransformSpec::RenameType {
            old_name: o,
            new_name: n,
        } && o@ == old_name@ && n@ == new_name@,
        Transform::ImportRename { old_path, new_path } => s matches TransformSpec::RenameImport {
            old_path: o,
            new_path: n,
        } && o@ == old_path@ && n@ == new_path@,
        _ => s matches TransformSpec::ReplacePattern { pattern, replacement } && (pattern@, replacement@)
            == pattern_replacement(t),
    }
}

impl TransformSpec {
    /// The configured form of a generated transform.
    pub fn from_transform(t: &Transform) -> (r: TransformSpec)
        ensures
            spec_of_transform(*t, r),
    {
        match t {
            Transform::FunctionRename { old_name, new_name } => TransformSpec::RenameFunction {
                old_name: old_name.clone(),
                new_name: new_name.clone(),
            },
            Transform::TypeRename { old_name, new_name } => TransformSpec::RenameType {
                old_name: old_name.clone(),
                new_name: new_name.clone(),
            },
            Transform::ImportRename { old_path, new_path } => TransformSpec::RenameImport {
                old_path: old_path.clone(),
                new_path: new_path.clone(),
            },
            _ => {
                let (pattern, replacement) = t.to_pattern_replacement();
                TransformSpec::ReplacePattern { pattern, replacement }
            },
        }
    }
}

/// Law: a transform written into a configuration rewrites source text as
/// the transform itself does.
pub proof fn law_configured_transform_same_rewrite(t: Transform, s: TransformSpec)
    requires
        spec_of_transform(t, s),
    ensures
        spec_pattern_replacement(s) == pattern_replacement(t),
{
}

} // verus!
