//! API change types and classifications.
use vstd::prelude::*;

use super::signature::{Parameter, TypeInfo};
use crate::text::copy_str;

verus! {

/// Classification of API changes.
#[derive(Debug, Clone, PartialEq)]
pub enum ChangeKind {
    /// Function/method was renamed.
    FunctionRenamed { old_name: String, new_name: String, mod_path: Option<String> },
    /// Import/module path changed.
    ImportRenamed { old_path: String, new_path: String },
    /// Function signature changed (parameters or return type).
    SignatureChanged {
        name: String,
        old_params: Vec<Parameter>,
        new_params: Vec<Parameter>,
        old_return: Option<TypeInfo>,
        new_return: Option<TypeInfo>,
    },
    /// Parameter added to function.
    ParameterAdded {
        function_name: String,
        param_name: String,
        param_type: Option<TypeInfo>,
        position: usize,
        has_default: bool,
    },
    /// Parameter removed from function.
    ParameterRemoved { function_name: String, param_name: String, position: usize },
    /// Parameters were reordered.
    ParameterReordered { function_name: String, old_order: Vec<String>, new_order: Vec<String> },
    /// API was completely removed.
    ApiRemoved { name: String, api_type: ApiType },
    /// Type/class/struct was renamed.
    TypeRenamed { old_name: String, new_name: String },
    /// Type definition changed.
    TypeChanged { name: String, description: String },
    /// Method moved to different module/class.
    MethodMoved { method_name: String, old_location: String, new_location: String },
    /// Constant value changed.
    ConstantChanged { name: String, old_value: Option<String>, new_value: Option<String> },
}

/// The human-readable name of a change kind.
pub open spec fn change_kind_name(k: ChangeKind) -> Seq<char> {
    match k {
        ChangeKind::FunctionRenamed { .. } => "Function Renamed"@,
        ChangeKind::ImportRenamed { .. } => "Import Path Changed"@,
        ChangeKind::SignatureChanged { .. } => "Signature Changed"@,
        ChangeKind::ParameterAdded { .. } => "Parameter Added"@,
        ChangeKind::ParameterRemoved { .. } => "Parameter Removed"@,
        ChangeKind::ParameterReordered { .. } => "Parameters Reordered"@,
        ChangeKind::ApiRemoved { .. } => "API Removed"@,
        ChangeKind::TypeRenamed { .. } => "Type Renamed"@,
        ChangeKind::TypeChanged { .. } => "Type Definition Changed"@,
        ChangeKind::MethodMoved { .. } => "Method Moved"@,
        ChangeKind::ConstantChanged { .. } => "Constant Changed"@,
    }
}

/// The change kinds that a text transform can apply automatically.
pub open spec fn is_auto_transformable_spec(k: ChangeKind) -> bool {
    ||| k is FunctionRenamed
    ||| k is ImportRenamed
    ||| k is TypeRenamed
    ||| k is MethodMoved
}

impl ChangeKind {
    /// Get a human-readable name for the change kind.
    pub fn name(&self) -> (r: &'static str)
        ensures
            r@ == change_kind_name(*self),
    {
        match self {
            ChangeKind::FunctionRenamed { .. } => "Function Renamed",
            ChangeKind::ImportRenamed { .. } => "Import Path Changed",
            ChangeKind::SignatureChanged { .. } => "Signature Changed",
            ChangeKind::ParameterAdded { .. } => "Parameter Added",
            ChangeKind::ParameterRemoved { .. } => "Parameter Removed",
            ChangeKind::ParameterReordered { .. } => "Parameters Reordered",
            ChangeKind::ApiRemoved { .. } => "API Removed",
            ChangeKind::TypeRenamed { .. } => "Type Renamed",
            ChangeKind::TypeChanged { .. } => "Type Definition Changed",
            ChangeKind::MethodMoved { .. } => "Method Moved",
            ChangeKind::ConstantChanged { .. } => "Constant Changed",
        }
    }

    /// Check if this change kind can be automatically transformed.
    pub fn is_auto_transformable(&self) -> (r: bool)
        ensures
            r == is_auto_transformable_spec(*self),
    {
        matches!(
            self,
            ChangeKind::FunctionRenamed { .. } | ChangeKind::ImportRenamed { .. }
                | ChangeKind::TypeRenamed { .. } | ChangeKind::MethodMoved { .. }
        )
    }
}

/// An API change found by comparing two signatures: its kind, the file it
/// was found in, the text it had and has, and its metadata. A change of this
/// form is certain; a fuzzy match carries a confidence besides.
#[derive(Debug)]
pub struct DetectedChange {
    /// The kind of change.
    pub kind: ChangeKind,
    /// File path where the change occurred.
    pub file_path: String,
    /// Original identifier or signature.
    pub original: Option<String>,
    /// New identifier or signature.
    pub replacement: Option<String>,
    /// Additional metadata about the change.
    pub metadata: ChangeMetadata,
}

/// Additional metadata about an API change.
#[derive(Debug, Clone, PartialEq)]
pub struct ChangeMetadata {
    /// Line number in old version.
    pub old_line: Option<usize>,
    /// Line number in new version.
    pub new_line: Option<usize>,
    /// Breaking change severity.
    pub severity: Severity,
    /// Suggested migration steps.
    pub migration_notes: Option<String>,
}

impl ChangeMetadata {
    /// Metadata of the given severity with migration notes and no line numbers.
    pub open spec fn with_notes(severity: Severity, notes: Seq<char>, m: Self) -> bool {
        &&& m.old_line is None
        &&& m.new_line is None
        &&& m.severity == severity
        &&& m.migration_notes matches Some(n) && n@ == notes
    }

    /// Metadata of the given severity carrying `notes`.
    fn of_severity(severity: Severity, notes: &str) -> (r: Self)
        ensures
            Self::with_notes(severity, notes@, r),
    {
        ChangeMetadata {
            old_line: None,
            new_line: None,
            severity,
            migration_notes: Some(copy_str(notes)),
        }
    }

    /// Create metadata for a breaking change.
    pub fn breaking(notes: &str) -> (r: Self)
        ensures
            Self::with_notes(Severity::Breaking, notes@, r),
    {
        Self::of_severity(Severity::Breaking, notes)
    }

    /// Create metadata for a warning-level change.
    pub fn warning(notes: &str) -> (r: Self)
        ensures
            Self::with_notes(Severity::Warning, notes@, r),
    {
        Self::of_severity(Severity::Warning, notes)
    }

    /// Create metadata for an informational change.
    pub fn info(notes: &str) -> (r: Self)
        ensures
            Self::with_notes(Severity::Info, notes@, r),
    {
        Self::of_severity(Severity::Info, notes)
    }
}

impl Default for ChangeMetadata {
    fn default() -> (r: Self)
        ensures
            r.old_line is None,
            r.new_line is None,
            r.severity == Severity::Breaking,
            r.migration_notes is None,
    {
        ChangeMetadata { old_line: None, new_line: None, severity: Severity::Breaking, migration_notes: None }
    }
}

/// Severity level of an API change.
#[derive(Debug, Clone, Copy, PartialEq, Eq)]
pub enum Severity {
    /// Will cause compile/runtime errors - must be fixed.
    Breaking,
    /// May cause issues in some cases.
    Warning,
    /// Non-breaking but notable change.
    Info,
}

impl Default for Severity {
    fn default() -> (r: Self)
        ensures
            r == Severity::Breaking,
    {
        Severity::Breaking
    }
}

/// Type of API element.
#[derive(Debug, Clone, Copy, PartialEq, Eq, Structural)]
pub enum ApiType {
    Function,
    Method,
    Class,
    Struct,
    Enum,
    Constant,
    TypeAlias,
    Interface,
    Module,
    Trait,
}

/// The human-readable name of an API type.
pub open spec fn api_type_name(t: ApiType) -> Seq<char> {
    match t {
        ApiType::Function => "function"@,
        ApiType::Method => "method"@,
        ApiType::Class => "class"@,
        ApiType::Struct => "struct"@,
        ApiType::Enum => "enum"@,
        ApiType::Constant => "constant"@,
        ApiType::TypeAlias => "type alias"@,
        ApiType::Interface => "interface"@,
        ApiType::Module => "module"@,
        ApiType::Trait => "trait"@,
    }
}

impl ApiType {
    /// Get a human-readable name.
    pub fn name(&self) -> (r: &'static str)
        ensures
            r@ == api_type_name(*self),
    {
        match self {
            ApiType::Function => "function",
            ApiType::Method => "method",
            ApiType::Class => "class",
            ApiType::Struct => "struct",
            ApiType::Enum => "enum",
            ApiType::Constant => "constant",
            ApiType::TypeAlias => "type alias",
            ApiType::Interface => "interface",
            ApiType::Module => "module",
            ApiType::Trait => "trait",
        }
    }
}

} // verus!
