//! API signature types for representing function and type definitions.
use vstd::prelude::*;

use super::change::ApiType;
use crate::text::{copy_str, push_char, push_str, chars_of, starts_with, str_eq};

verus! {

/// Extracted API signature from source code.
#[derive(Debug, Clone)]
pub struct ApiSignature {
    /// Name of the API element.
    pub name: String,
    /// Type of API (function, class, etc.).
    pub kind: ApiType,
    /// Visibility (public, private, etc.).
    pub visibility: Visibility,
    /// Function parameters (empty for non-functions).
    pub parameters: Vec<Parameter>,
    /// Return type (for functions).
    pub return_type: Option<TypeInfo>,
    /// Generic type parameters.
    pub generic_params: Vec<String>,
    /// Source location.
    pub location: SourceLocation,
    /// Module/namespace path.
    pub mod_path: Option<String>,
    /// Whether this is exported/public API.
    pub is_exported: bool,
}

/// The parameters' names, in order.
pub open spec fn param_names_spec(params: Seq<Parameter>) -> Seq<Seq<char>> {
    params.map_values(|p: Parameter| p.name@)
}

/// The unique identifier of an API: `module::name`, or the bare name.
pub open spec fn unique_id_spec(name: Seq<char>, mod_path: Option<String>) -> Seq<char> {
    match mod_path {
        Some(path) => path@ + "::"@ + name,
        None => name,
    }
}

impl ApiSignature {
    /// A signature of the given kind with every other field at its default.
    pub open spec fn fresh(name: Seq<char>, kind: ApiType, location: SourceLocation, s: Self) -> bool {
        &&& s.name@ == name
        &&& s.kind == kind
        &&& s.visibility == Visibility::Public
        &&& s.parameters@.len() == 0
        &&& s.return_type is None
        &&& s.generic_params@.len() == 0
        &&& s.location == location
        &&& s.mod_path is None
        &&& s.is_exported
    }

    /// Create a new function signature.
    pub fn function(name: &str, location: SourceLocation) -> (r: Self)
        ensures
            Self::fresh(name@, ApiType::Function, location, r),
    {
        Self::type_def(name, ApiType::Function, location)
    }

    /// Create a new method signature (member function of a class/struct).
    pub fn method(name: &str, location: SourceLocation) -> (r: Self)
        ensures
            Self::fresh(name@, ApiType::Method, location, r),
    {
        Self::type_def(name, ApiType::Method, location)
    }

    /// Create a new type signature (struct, class, interface).
    pub fn type_def(name: &str, kind: ApiType, location: SourceLocation) -> (r: Self)
        ensures
            Self::fresh(name@, kind, location, r),
    {
        ApiSignature {
            name: copy_str(name),
            kind,
            visibility: Visibility::Public,
            parameters: Vec::new(),
            return_type: None,
            generic_params: Vec::new(),
            location,
            mod_path: None,
            is_exported: true,
        }
    }

    /// Set parameters.
    pub fn with_params(self, params: Vec<Parameter>) -> (r: Self)
        ensures
            r == (ApiSignature { parameters: params, ..self }),
    {
        ApiSignature { parameters: params, ..self }
    }

    /// Set return type.
    pub fn with_return_type(self, return_type: TypeInfo) -> (r: Self)
        ensures
            r == (ApiSignature { return_type: Some(return_type), ..self }),
    {
        ApiSignature { return_type: Some(return_type), ..self }
    }

    /// Set visibility.
    pub fn with_visibility(self, visibility: Visibility) -> (r: Self)
        ensures
            r == (ApiSignature { visibility, ..self }),
    {
        ApiSignature { visibility, ..self }
    }

    /// Set module path.
    pub fn with_module_path(self, path: &str) -> (r: Self)
        ensures
            r.mod_path matches Some(p) && p@ == path@,
            r == (ApiSignature { mod_path: r.mod_path, ..self }),
    {
        ApiSignature { mod_path: Some(copy_str(path)), ..self }
    }

    /// Set exported flag.
    pub fn exported(self, is_exported: bool) -> (r: Self)
        ensures
            r == (ApiSignature { is_exported, ..self }),
    {
        ApiSignature { is_exported, ..self }
    }

    /// Get a unique identifier for this API.
    pub fn unique_id(&self) -> (r: String)
        ensures
            r@ == unique_id_spec(self.name@, self.mod_path),
    {
        match &self.mod_path {
            Some(path) => {
                let mut s = path.clone();
                push_str(&mut s, "::");
                push_str(&mut s, self.name.as_str());
                s
            },
            None => self.name.clone(),
        }
    }

    /// Get parameter names in order.
    pub fn param_names(&self) -> (r: Vec<&str>)
        ensures
            r@.map_values(|s: &str| s@) == param_names_spec(self.parameters@),
    {
        let mut r: Vec<&str> = Vec::new();
        let mut i: usize = 0;
        while i < self.parameters.len()
            invariant
                0 <= i <= self.parameters.len(),
                r@.map_values(|s: &str| s@) == param_names_spec(self.parameters@.take(i as int)),
            decreases self.parameters.len() - i,
        {
            r.push(self.parameters[i].name.as_str());
            assert(param_names_spec(self.parameters@.take(i + 1)) =~= param_names_spec(
                self.parameters@.take(i as int),
            ).push(self.parameters@[i as int].name@));
            i = i + 1;
        }
        assert(self.parameters@.take(self.parameters.len() as int) =~= self.parameters@);
        r
    }
}

/// Represents a function/method parameter.
#[derive(Debug, Clone, PartialEq)]
pub struct Parameter {
    /// Parameter name.
    pub name: String,
    /// Type information (if available).
    pub type_info: Option<TypeInfo>,
    /// Whether this parameter has a default value.
    pub has_default: bool,
    /// Whether this parameter is optional.
    pub is_optional: bool,
    /// Whether this is a variadic/rest parameter.
    pub is_variadic: bool,
}

/// The display text of a parameter.
pub open spec fn param_display_spec(p: Parameter) -> Seq<char> {
    let base = p.name@ + (if p.is_optional {
        seq!['?']
    } else {
        Seq::empty()
    }) + (match p.type_info {
        Some(t) => ": "@ + type_display_spec(t),
        None => Seq::empty(),
    }) + (if p.has_default {
        " = ..."@
    } else {
        Seq::empty()
    });
    if p.is_variadic {
        "..."@ + base
    } else {
        base
    }
}

impl Parameter {
    /// Create a new parameter.
    pub fn new(name: &str) -> (r: Self)
        ensures
            r.name@ == name@,
            r.type_info is None,
            !r.has_default,
            !r.is_optional,
            !r.is_variadic,
    {
        Parameter {
            name: copy_str(name),
            type_info: None,
            has_default: false,
            is_optional: false,
            is_variadic: false,
        }
    }

    /// Set type information.
    pub fn with_type(self, type_info: TypeInfo) -> (r: Self)
        ensures
            r == (Parameter { type_info: Some(type_info), ..self }),
    {
        Parameter { type_info: Some(type_info), ..self }
    }

    /// Mark as having a default value.
    pub fn with_default(self) -> (r: Self)
        ensures
            r == (Parameter { has_default: true, ..self }),
    {
        Parameter { has_default: true, ..self }
    }

    /// Mark as optional.
    pub fn optional(self) -> (r: Self)
        ensures
            r == (Parameter { is_optional: true, ..self }),
    {
        Parameter { is_optional: true, ..self }
    }

    /// Mark as variadic.
    pub fn variadic(self) -> (r: Self)
        ensures
            r == (Parameter { is_variadic: true, ..self }),
    {
        Parameter { is_variadic: true, ..self }
    }

    /// Get a display string for this parameter.
    pub fn display(&self) -> (r: String)
        ensures
            r@ == param_display_spec(*self),
    {
        let mut s = self.name.clone();
        if self.is_optional {
            push_char(&mut s, '?');
        }
        if let Some(ty) = &self.type_info {
            push_str(&mut s, ": ");
            let t = ty.display();
            push_str(&mut s, t.as_str());
        }
        if self.has_default {
            push_str(&mut s, " = ...");
        }
        if self.is_variadic {
            let mut v = String::new();
            push_str(&mut v, "...");
            push_str(&mut v, s.as_str());
            s = v;
        }
        s
    }
}

/// Type information.
#[derive(Debug, PartialEq)]
pub struct TypeInfo {
    /// Type name.
    pub name: String,
    /// Generic type arguments.
    pub generic_args: Vec<TypeInfo>,
    /// Whether this is an optional type (`T | undefined`, `Option<T>`).
    pub is_optional: bool,
    /// Whether this is a reference type.
    pub is_reference: bool,
    /// Whether this is mutable (Rust &mut).
    pub is_mutable: bool,
}

/// The display text of a type: `&`/`&mut ` prefix, name, generic arguments
/// joined by `", "` in angle brackets, and a `?` for optional types whose
/// name does not start with `Option`.
pub open spec fn type_display_spec(t: TypeInfo) -> Seq<char>
    decreases t, t.generic_args@.len() + 1,
{
    let prefix = if t.is_reference {
        if t.is_mutable {
            "&mut "@
        } else {
            seq!['&']
        }
    } else {
        Seq::empty()
    };
    let args = if t.generic_args@.len() > 0 {
        seq!['<'] + type_args_display_spec(t, t.generic_args@.len()) + seq!['>']
    } else {
        Seq::empty()
    };
    let suffix = if t.is_optional && !"Option"@.is_prefix_of(t.name@) {
        seq!['?']
    } else {
        Seq::empty()
    };
    prefix + t.name@ + args + suffix
}

/// The display texts of the first `n` generic arguments of `t`, joined by `", "`.
pub open spec fn type_args_display_spec(t: TypeInfo, n: nat) -> Seq<char>
    decreases t, n,
{
    if n == 0 || n > t.generic_args@.len() {
        Seq::empty()
    } else if n == 1 {
        type_display_spec(t.generic_args@[0])
    } else {
        type_args_display_spec(t, (n - 1) as nat) + ", "@ + type_display_spec(
            t.generic_args@[n - 1],
        )
    }
}

/// Structural equality of two types, by the text of their names.
pub open spec fn same_type(a: TypeInfo, b: TypeInfo) -> bool
    decreases a, a.generic_args@.len() + 1,
{
    &&& a.name@ == b.name@
    &&& a.is_optional == b.is_optional
    &&& a.is_reference == b.is_reference
    &&& a.is_mutable == b.is_mutable
    &&& a.generic_args@.len() == b.generic_args@.len()
    &&& same_type_args(a, b, a.generic_args@.len())
}

/// The first `n` generic arguments of `a` and `b` are the same types.
pub open spec fn same_type_args(a: TypeInfo, b: TypeInfo, n: nat) -> bool
    decreases a, n,
{
    if n == 0 {
        true
    } else if n > a.generic_args@.len() || n > b.generic_args@.len() {
        false
    } else {
        same_type_args(a, b, (n - 1) as nat) && same_type(a.generic_args@[n - 1], b.generic_args@[n - 1])
    }
}

/// Pairwise same types in two sequences, up to `n`.
pub open spec fn same_type_args_seq(a: Seq<TypeInfo>, b: Seq<TypeInfo>, n: nat) -> bool
    decreases n,
{
    if n == 0 {
        true
    } else if n > a.len() || n > b.len() {
        false
    } else {
        same_type_args_seq(a, b, (n - 1) as nat) && same_type(a[n - 1], b[n - 1])
    }
}

/// The argument-wise relation of two types is that of their argument sequences.
pub proof fn lemma_same_type_args_seq(a: TypeInfo, b: TypeInfo, n: nat)
    ensures
        same_type_args(a, b, n) == same_type_args_seq(a.generic_args@, b.generic_args@, n),
    decreases n,
{
    if n > 0 {
        lemma_same_type_args_seq(a, b, (n - 1) as nat);
    }
}

/// Pairwise same types give the recursive relation.
pub proof fn lemma_same_type_args_seq_all(a: Seq<TypeInfo>, b: Seq<TypeInfo>, n: nat)
    requires
        n <= a.len(),
        n <= b.len(),
        forall|k: int| 0 <= k < n ==> same_type(a[k], b[k]),
    ensures
        same_type_args_seq(a, b, n),
    decreases n,
{
    if n > 0 {
        lemma_same_type_args_seq_all(a, b, (n - 1) as nat);
    }
}

/// A failing prefix makes every longer prefix fail.
pub proof fn lemma_same_type_args_prefix(a: TypeInfo, b: TypeInfo, n: nat, m: nat)
    requires
        n <= m,
    ensures
        !same_type_args(a, b, n) ==> !same_type_args(a, b, m),
    decreases m - n,
{
    if n < m {
        lemma_same_type_args_prefix(a, b, n, (m - 1) as nat);
    }
}

/// Every type is the same as itself.
pub proof fn lemma_same_type_refl(a: TypeInfo)
    ensures
        same_type(a, a),
    decreases a, a.generic_args@.len() + 1,
{
    lemma_same_type_args_refl(a, a.generic_args@.len());
}

/// Every type's first `n` arguments are the same as themselves.
pub proof fn lemma_same_type_args_refl(a: TypeInfo, n: nat)
    requires
        n <= a.generic_args@.len(),
    ensures
        same_type_args(a, a, n),
    decreases a, n,
{
    if n > 0 {
        lemma_same_type_args_refl(a, (n - 1) as nat);
        lemma_same_type_refl(a.generic_args@[n - 1]);
    }
}

/// Equality of two optional types.
pub open spec fn same_opt_type(a: Option<TypeInfo>, b: Option<TypeInfo>) -> bool {
    match (a, b) {
        (Some(x), Some(y)) => same_type(x, y),
        (None, None) => true,
        _ => false,
    }
}

impl Clone for TypeInfo {
    fn clone(&self) -> (r: Self)
        ensures
            same_type(r, *self),
    {
        self.deep_copy()
    }
}

impl TypeInfo {
    /// A copy of this type, argument by argument.
    pub fn deep_copy(&self) -> (r: Self)
        ensures
            same_type(r, *self),
        decreases *self,
    {
        let mut args: Vec<TypeInfo> = Vec::new();
        let mut i: usize = 0;
        while i < self.generic_args.len()
            invariant
                0 <= i <= self.generic_args.len(),
                args@.len() == i,
                forall|k: int| 0 <= k < i ==> same_type(args@[k], self.generic_args@[k]),
            decreases self.generic_args.len() - i,
        {
            proof {
                assert(decreases_to!(*self => self.generic_args@[i as int]));
            }
            let a = self.generic_args[i].deep_copy();
            args.push(a);
            i = i + 1;
        }
        let r = TypeInfo {
            name: self.name.clone(),
            generic_args: args,
            is_optional: self.is_optional,
            is_reference: self.is_reference,
            is_mutable: self.is_mutable,
        };
        assert(same_type_args(r, *self, i as nat)) by {
            lemma_same_type_args_seq_all(r.generic_args@, self.generic_args@, i as nat);
            lemma_same_type_args_seq(r, *self, i as nat);
        }
        r
    }

    /// Create a simple type.
    pub fn simple(name: &str) -> (r: Self)
        ensures
            r.name@ == name@,
            r.generic_args@.len() == 0,
            !r.is_optional,
            !r.is_reference,
            !r.is_mutable,
    {
        TypeInfo::generic(name, Vec::new())
    }

    /// Create a generic type.
    pub fn generic(name: &str, args: Vec<TypeInfo>) -> (r: Self)
        ensures
            r.name@ == name@,
            r.generic_args == args,
            !r.is_optional,
            !r.is_reference,
            !r.is_mutable,
    {
        TypeInfo {
            name: copy_str(name),
            generic_args: args,
            is_optional: false,
            is_reference: false,
            is_mutable: false,
        }
    }

    /// Mark as optional.
    pub fn optional(self) -> (r: Self)
        ensures
            r == (TypeInfo { is_optional: true, ..self }),
    {
        TypeInfo { is_optional: true, ..self }
    }

    /// Mark as reference.
    pub fn reference(self) -> (r: Self)
        ensures
            r == (TypeInfo { is_reference: true, ..self }),
    {
        TypeInfo { is_reference: true, ..self }
    }

    /// Mark as mutable reference.
    pub fn mutable(self) -> (r: Self)
        ensures
            r == (TypeInfo { is_mutable: true, is_reference: true, ..self }),
    {
        TypeInfo { is_mutable: true, is_reference: true, ..self }
    }

    /// Get a display string for this type.
    pub fn display(&self) -> (r: String)
        ensures
            r@ == type_display_spec(*self),
        decreases *self, self.generic_args@.len() + 1,
    {
        let mut s = String::new();
        if self.is_reference {
            push_char(&mut s, '&');
            if self.is_mutable {
                push_str(&mut s, "mut ");
            }
        }
        assert(s@ == (if self.is_reference {
            if self.is_mutable {
                "&mut "@
            } else {
                seq!['&']
            }
        } else {
            Seq::<char>::empty()
        })) by {
            if self.is_reference && self.is_mutable {
                assert(seq!['&'] + "mut "@ =~= "&mut "@) by {
                    reveal_strlit("mut ");
                    reveal_strlit("&mut ");
                }
            }
        }
        push_str(&mut s, self.name.as_str());
        if self.generic_args.len() > 0 {
            push_char(&mut s, '<');
            let args = self.args_display(self.generic_args.len());
            push_str(&mut s, args.as_str());
            push_char(&mut s, '>');
        }
        let name_chars = chars_of(self.name.as_str());
        let opt_chars = chars_of("Option");
        if self.is_optional && !starts_with(&name_chars, &opt_chars) {
            push_char(&mut s, '?');
        }
        proof {
            reveal_with_fuel(type_display_spec, 1);
        }
        assert(s@ =~= type_display_spec(*self));
        s
    }

    /// The display texts of the first `n` generic arguments, joined by `", "`.
    fn args_display(&self, n: usize) -> (r: String)
        requires
            n <= self.generic_args@.len(),
        ensures
            r@ == type_args_display_spec(*self, n as nat),
        decreases *self, n,
    {
        if n == 0 {
            String::new()
        } else if n == 1 {
            proof {
                assert(decreases_to!(*self => self.generic_args@[0]));
            }
            self.generic_args[0].display()
        } else {
            let mut s = self.args_display(n - 1);
            push_str(&mut s, ", ");
            proof {
                assert(decreases_to!(*self => self.generic_args@[n - 1]));
            }
            let last = self.generic_args[n - 1].display();
            push_str(&mut s, last.as_str());
            s
        }
    }

    /// Structural equality of two types.
    pub fn same_as(&self, other: &TypeInfo) -> (r: bool)
        ensures
            r == same_type(*self, *other),
        decreases *self,
    {
        if !str_eq(self.name.as_str(), other.name.as_str()) || self.is_optional != other.is_optional
            || self.is_reference != other.is_reference || self.is_mutable != other.is_mutable
            || self.generic_args.len() != other.generic_args.len() {
            return false;
        }
        let mut i: usize = 0;
        while i < self.generic_args.len()
            invariant
                0 <= i <= self.generic_args.len(),
                self.generic_args.len() == other.generic_args.len(),
                !same_type_args(*self, *other, i as nat) ==> !same_type_args(*self, *other, self.generic_args@.len()),
                same_type_args(*self, *other, i as nat),
            decreases self.generic_args.len() - i,
        {
            proof {
                assert(decreases_to!(*self => self.generic_args@[i as int]));
                lemma_same_type_args_prefix(*self, *other, i as nat, self.generic_args@.len());
            }
            if !self.generic_args[i].same_as(&other.generic_args[i]) {
                proof {
                    lemma_same_type_args_prefix(*self, *other, (i + 1) as nat, self.generic_args@.len());
                }
                return false;
            }
            i = i + 1;
        }
        true
    }
}

/// A copy of an optional type.
pub fn copy_opt_type(t: &Option<TypeInfo>) -> (r: Option<TypeInfo>)
    ensures
        same_opt_type(r, *t),
{
    match t {
        Some(x) => Some(x.deep_copy()),
        None => None,
    }
}

/// Two parameters with the same name, type and flags.
pub open spec fn same_param(a: Parameter, b: Parameter) -> bool {
    &&& a.name@ == b.name@
    &&& same_opt_type(a.type_info, b.type_info)
    &&& a.has_default == b.has_default
    &&& a.is_optional == b.is_optional
    &&& a.is_variadic == b.is_variadic
}

/// Two parameter lists that agree parameter by parameter.
pub open spec fn same_params(a: Seq<Parameter>, b: Seq<Parameter>) -> bool {
    a.len() == b.len() && forall|i: int| 0 <= i < a.len() ==> same_param(#[trigger] a[i], b[i])
}

impl Parameter {
    /// A copy of this parameter, its type copied argument by argument.
    pub fn deep_copy(&self) -> (r: Self)
        ensures
            same_param(r, *self),
    {
        Parameter {
            name: self.name.clone(),
            type_info: copy_opt_type(&self.type_info),
            has_default: self.has_default,
            is_optional: self.is_optional,
            is_variadic: self.is_variadic,
        }
    }
}

/// A copy of a parameter list.
pub fn copy_params(ps: &Vec<Parameter>) -> (r: Vec<Parameter>)
    ensures
        same_params(r@, ps@),
{
    let mut r: Vec<Parameter> = Vec::new();
    let mut i: usize = 0;
    while i < ps.len()
        invariant
            0 <= i <= ps.len(),
            r@.len() == i,
            forall|k: int| 0 <= k < i ==> same_param(#[trigger] r@[k], ps@[k]),
        decreases ps.len() - i,
    {
        r.push(ps[i].deep_copy());
        i = i + 1;
    }
    r
}

/// Equality of two optional types.
pub fn same_opt_type_exec(a: &Option<TypeInfo>, b: &Option<TypeInfo>) -> (r: bool)
    ensures
        r == same_opt_type(*a, *b),
{
    match (a, b) {
        (Some(x), Some(y)) => x.same_as(y),
        (None, None) => true,
        _ => false,
    }
}

/// Source code location.
#[derive(Debug, Clone, Default, PartialEq)]
pub struct SourceLocation {
    /// File path.
    pub file: String,
    /// Line number (1-indexed).
    pub line: usize,
    /// Column number (1-indexed).
    pub column: usize,
    /// Byte offset in file.
    pub byte_offset: usize,
}

impl SourceLocation {
    /// Create a new source location.
    pub fn new(file: &str, line: usize, column: usize) -> (r: Self)
        ensures
            r.file@ == file@,
            r.line == line,
            r.column == column,
            r.byte_offset == 0,
    {
        SourceLocation { file: copy_str(file), line, column, byte_offset: 0 }
    }

    /// Set byte offset.
    pub fn with_byte_offset(self, offset: usize) -> (r: Self)
        ensures
            r == (SourceLocation { byte_offset: offset, ..self }),
    {
        SourceLocation { byte_offset: offset, ..self }
    }
}

/// Visibility of an API element.
#[derive(Debug, Clone, Copy, Default, PartialEq, Eq)]
pub enum Visibility {
    #[default]
    Public,
    Private,
    Protected,
    Internal,
    /// Rust pub(crate)
    Crate,
    /// Rust pub(super)
    Super,
}

impl Visibility {
    /// Check if this visibility is public (exported).
    pub fn is_public(&self) -> (r: bool)
        ensures
            r == (*self is Public),
    {
        matches!(self, Visibility::Public)
    }
}

} // verus!
