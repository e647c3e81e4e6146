//! Parameter lists read from the syntax trees of each supported language.
use vstd::prelude::*;

use super::signature::{Parameter, TypeInfo};
use super::syntax::{
    first_child_with_field, first_with_field, last_child_containing, last_child_of_kind,
    last_kind_containing, last_of_kind, node_text, opt_text, text_of, SyntaxNode,
};
use crate::text::{chars_of, contains, str_contains, str_eq, string_of, sub_chars, trim, trim_chars,
    trim_start_char};

verus! {

/// A parameter as extraction describes it: its name, the name of its
/// simple type, and its flags.
pub struct ParamView {
    pub name: Seq<char>,
    pub ty: Option<Seq<char>>,
    pub has_default: bool,
    pub is_optional: bool,
    pub is_variadic: bool,
}

/// A type with only a name: no arguments, not optional, not a reference.
pub open spec fn simple_type_named(t: TypeInfo, name: Seq<char>) -> bool {
    &&& t.name@ == name
    &&& t.generic_args@.len() == 0
    &&& !t.is_optional
    &&& !t.is_reference
    &&& !t.is_mutable
}

/// An optional type that is a simple type of the given name, or absent.
pub open spec fn opt_type_is(t: Option<TypeInfo>, name: Option<Seq<char>>) -> bool {
    match (t, name) {
        (Some(x), Some(n)) => simple_type_named(x, n),
        (None, None) => true,
        _ => false,
    }
}

/// A parameter as its view describes it.
pub open spec fn param_is(p: Parameter, v: ParamView) -> bool {
    &&& p.name@ == v.name
    &&& opt_type_is(p.type_info, v.ty)
    &&& p.has_default == v.has_default
    &&& p.is_optional == v.is_optional
    &&& p.is_variadic == v.is_variadic
}

/// Parameters as their views describe them, in order.
pub open spec fn params_are(ps: Seq<Parameter>, vs: Seq<ParamView>) -> bool {
    ps.len() == vs.len() && forall|i: int| 0 <= i < ps.len() ==> param_is(#[trigger] ps[i], vs[i])
}

/// The language whose parameter syntax is read.
#[derive(Debug, Clone, Copy, PartialEq, Eq, Structural)]
pub enum ParamStyle {
    Rust,
    TypeScript,
    Python,
    Go,
    Java,
    CSharp,
    Ruby,
}

/// A parameter view with a name, a type and flags.
pub open spec fn pv(name: Seq<char>, ty: Option<Seq<char>>, d: bool, o: bool, v: bool) -> ParamView {
    ParamView { name, ty, has_default: d, is_optional: o, is_variadic: v }
}

/// A text trimmed of whitespace, when there is one.
pub open spec fn trimmed(t: Option<Seq<char>>) -> Option<Seq<char>> {
    match t {
        Some(s) => Some(trim(s)),
        None => None,
    }
}

/// A type annotation's text without its colon: trimmed, leading `:`s
/// dropped, trimmed again.
pub open spec fn annotation_type(s: Seq<char>) -> Seq<char> {
    trim(trim_start_char(trim(s), ':'))
}

/// The texts of the children of kind `identifier` that have a text, in order.
pub open spec fn identifier_texts(cs: Seq<SyntaxNode>) -> Seq<Seq<char>>
    decreases cs.len(),
{
    if cs.len() == 0 {
        Seq::empty()
    } else {
        let rest = identifier_texts(cs.drop_last());
        if cs.last().kind@ == "identifier"@ && text_of(cs.last()) is Some {
            rest.push(text_of(cs.last())->0)
        } else {
            rest
        }
    }
}

/// The text of the child at an index, when there is such a child and it has
/// a text.
pub open spec fn child_text(cs: Seq<SyntaxNode>, i: int) -> Option<Seq<char>> {
    if 0 <= i < cs.len() {
        text_of(cs[i])
    } else {
        None
    }
}

/// A name that Python passes implicitly.
pub open spec fn is_receiver_name(name: Seq<char>) -> bool {
    name == "self"@ || name == "cls"@
}

/// A parameter with a name and its flags, or none without a name.
pub open spec fn named_param(name: Option<Seq<char>>, ty: Option<Seq<char>>, d: bool, o: bool, v: bool) -> Seq<
    ParamView,
> {
    match name {
        Some(n) => seq![pv(n, ty, d, o, v)],
        None => Seq::empty(),
    }
}

/// The parameters that one child of a parameter list declares.
pub open spec fn child_params(style: ParamStyle, c: SyntaxNode) -> Seq<ParamView> {
    let k = c.kind@;
    let cs = c.children@;
    match style {
        ParamStyle::Rust => if k == "parameter"@ {
            named_param(
                opt_text(last_of_kind(cs, "identifier"@)),
                trimmed(opt_text(last_kind_containing(cs, "type"@))),
                false,
                false,
                false,
            )
        } else {
            Seq::empty()
        },
        ParamStyle::TypeScript => if k == "required_parameter"@ || k == "optional_parameter"@ {
            named_param(
                opt_text(last_of_kind(cs, "identifier"@)),
                match opt_text(last_of_kind(cs, "type_annotation"@)) {
                    Some(t) => Some(annotation_type(t)),
                    None => None,
                },
                false,
                k == "optional_parameter"@,
                false,
            )
        } else {
            Seq::empty()
        },
        ParamStyle::Python => if k == "identifier"@ {
            match text_of(c) {
                Some(n) => if is_receiver_name(n) {
                    Seq::empty()
                } else {
                    seq![pv(n, None, false, false, false)]
                },
                None => Seq::empty(),
            }
        } else if k == "typed_parameter"@ || k == "default_parameter"@ || k
            == "typed_default_parameter"@ {
            match opt_text(last_of_kind(cs, "identifier"@)) {
                Some(n) => if is_receiver_name(n) {
                    Seq::empty()
                } else {
                    seq![
                        pv(
                            n,
                            trimmed(opt_text(last_of_kind(cs, "type"@))),
                            contains(k, "default"@),
                            false,
                            false,
                        ),
                    ]
                },
                None => Seq::empty(),
            }
        } else if k == "list_splat_pattern"@ || k == "dictionary_splat_pattern"@ {
            named_param(opt_text(first_with_field(cs, "name"@)), None, false, false, true)
        } else {
            Seq::empty()
        },
        ParamStyle::Go => if k == "parameter_declaration"@ {
            let ty = trimmed(opt_text(last_kind_containing(cs, "type"@)));
            identifier_texts(cs).map_values(|n: Seq<char>| pv(n, ty, false, false, false))
        } else {
            Seq::empty()
        },
        ParamStyle::Java => if k == "formal_parameter"@ {
            named_param(
                opt_text(last_of_kind(cs, "identifier"@)),
                trimmed(opt_text(last_kind_containing(cs, "type"@))),
                false,
                false,
                false,
            )
        } else {
            Seq::empty()
        },
        ParamStyle::CSharp => if k == "parameter"@ {
            named_param(
                opt_text(last_of_kind(cs, "identifier"@)),
                trimmed(opt_text(last_kind_containing(cs, "type"@))),
                false,
                false,
                false,
            )
        } else {
            Seq::empty()
        },
        ParamStyle::Ruby => if k == "identifier"@ {
            named_param(text_of(c), None, false, false, false)
        } else if k == "optional_parameter"@ {
            named_param(child_text(cs, 0), None, true, false, false)
        } else if k == "splat_parameter"@ || k == "hash_splat_parameter"@ {
            named_param(child_text(cs, 1), None, false, false, true)
        } else if k == "keyword_parameter"@ {
            named_param(child_text(cs, 0), None, false, false, false)
        } else {
            Seq::empty()
        },
    }
}

/// The parameters that a sequence of children declares, in order.
pub open spec fn params_of(style: ParamStyle, cs: Seq<SyntaxNode>) -> Seq<ParamView>
    decreases cs.len(),
{
    if cs.len() == 0 {
        Seq::empty()
    } else {
        params_of(style, cs.drop_last()) + child_params(style, cs.last())
    }
}

/// `str::trim` on a string.
pub fn trim_text(s: &str) -> (r: String)
    ensures
        r@ == trim(s@),
{
    let v = chars_of(s);
    let t = trim_chars(&v);
    string_of(&t)
}

/// `str::trim_start_matches` with a character.
fn trim_start_char_exec(v: &Vec<char>, c: char) -> (r: Vec<char>)
    ensures
        r@ == trim_start_char(v@, c),
{
    let mut a: usize = 0;
    assert(v@.skip(0) =~= v@);
    while a < v.len() && v[a] == c
        invariant
            0 <= a <= v.len(),
            trim_start_char(v@, c) == trim_start_char(v@.skip(a as int), c),
        decreases v.len() - a,
    {
        assert(v@.skip(a as int).drop_first() =~= v@.skip(a + 1));
        a = a + 1;
    }
    assert(v@.subrange(a as int, v.len() as int) =~= v@.skip(a as int));
    sub_chars(v, a, v.len())
}

/// A type annotation's text without its colon.
pub fn annotation_text(s: &str) -> (r: String)
    ensures
        r@ == annotation_type(s@),
{
    let v = chars_of(s);
    let t = trim_chars(&v);
    let u = trim_start_char_exec(&t, ':');
    let w = trim_chars(&u);
    string_of(&w)
}

/// The trimmed text of a node that may be absent.
fn trimmed_text(n: Option<&SyntaxNode>) -> (r: Option<String>)
    ensures
        opt_view(r) == trimmed(
            match n {
                Some(x) => text_of(*x),
                None => None,
            },
        ),
{
    match n {
        Some(x) => match &x.text {
            Some(t) => Some(trim_text(t.as_str())),
            None => None,
        },
        None => None,
    }
}

/// The text of a node that may be absent.
fn some_text(n: Option<&SyntaxNode>) -> (r: Option<String>)
    ensures
        opt_view(r) == match n {
            Some(x) => text_of(*x),
            None => None,
        },
{
    match n {
        Some(x) => node_text(x),
        None => None,
    }
}

/// The view of an optional string.
pub open spec fn opt_view(t: Option<String>) -> Option<Seq<char>> {
    match t {
        Some(x) => Some(x@),
        None => None,
    }
}

/// A parameter from its parts, its type simple.
fn make_param(name: &str, ty: &Option<String>, d: bool, o: bool, v: bool) -> (r: Parameter)
    ensures
        param_is(r, pv(name@, opt_view(*ty), d, o, v)),
{
    Parameter {
        name: crate::text::copy_str(name),
        type_info: match ty {
            Some(t) => Some(TypeInfo::simple(t.as_str())),
            None => None,
        },
        has_default: d,
        is_optional: o,
        is_variadic: v,
    }
}

/// Parameters as their views describe them, joined.
pub proof fn lemma_params_are_append(a: Seq<Parameter>, va: Seq<ParamView>, b: Seq<Parameter>, vb: Seq<ParamView>)
    requires
        params_are(a, va),
        params_are(b, vb),
    ensures
        params_are(a + b, va + vb),
{
    assert forall|i: int| 0 <= i < (a + b).len() implies param_is(#[trigger] (a + b)[i], (va + vb)[i]) by {
        if i < a.len() {
            assert((a + b)[i] == a[i]);
        } else {
            assert((a + b)[i] == b[i - a.len()]);
        }
    }
}

/// The optional parameter with a name, or none.
fn named_param_exec(name: Option<String>, ty: &Option<String>, d: bool, o: bool, v: bool) -> (r: Vec<Parameter>)
    ensures
        params_are(r@, named_param(opt_view(name), opt_view(*ty), d, o, v)),
{
    match name {
        Some(n) => {
            let p = make_param(n.as_str(), ty, d, o, v);
            let r = vec![p];
            assert(r@ =~= seq![p]);
            r
        },
        None => Vec::new(),
    }
}

/// The text of the child at an index.
fn child_text_exec(c: &SyntaxNode, i: usize) -> (r: Option<String>)
    ensures
        opt_view(r) == child_text(c.children@, i as int),
{
    if i < c.children.len() {
        node_text(&c.children[i])
    } else {
        None
    }
}

/// Go: the parameters of one declaration, one per name, all of its type.
fn go_params(c: &SyntaxNode) -> (r: Vec<Parameter>)
    ensures
        params_are(
            r@,
            identifier_texts(c.children@).map_values(
                |n: Seq<char>|
                    pv(n, trimmed(opt_text(last_kind_containing(c.children@, "type"@))), false, false, false),
            ),
        ),
{
    let ty = trimmed_text(last_child_containing(c, "type"));
    let ghost tyv = trimmed(opt_text(last_kind_containing(c.children@, "type"@)));
    assert(opt_view(ty) == tyv);
    let cs = &c.children;
    let mut r: Vec<Parameter> = Vec::new();
    let mut i: usize = 0;
    while i < cs.len()
        invariant
            0 <= i <= cs.len(),
            opt_view(ty) == tyv,
            params_are(
                r@,
                identifier_texts(cs@.take(i as int)).map_values(
                    |n: Seq<char>| pv(n, tyv, false, false, false),
                ),
            ),
        decreases cs.len() - i,
    {
        let ghost before = r@;
        assert(cs@.take(i + 1).drop_last() =~= cs@.take(i as int));
        assert(cs@.take(i + 1).last() == cs@[i as int]);
        if str_eq(cs[i].kind.as_str(), "identifier") {
            match &cs[i].text {
                Some(t) => {
                    let p = make_param(t.as_str(), &ty, false, false, false);
                    r.push(p);
                    assert(identifier_texts(cs@.take(i + 1)) == identifier_texts(cs@.take(i as int)).push(t@));
                    assert(identifier_texts(cs@.take(i + 1)).map_values(
                        |n: Seq<char>| pv(n, tyv, false, false, false),
                    ) =~= identifier_texts(cs@.take(i as int)).map_values(
                        |n: Seq<char>| pv(n, tyv, false, false, false),
                    ).push(pv(t@, tyv, false, false, false)));
                },
                None => {},
            }
        }
        i = i + 1;
    }
    assert(cs@.take(cs.len() as int) =~= cs@);
    r
}

/// The parameters that one child of a parameter list declares.
pub fn child_params_exec(style: ParamStyle, c: &SyntaxNode) -> (r: Vec<Parameter>)
    ensures
        params_are(r@, child_params(style, *c)),
{
    let k = c.kind.as_str();
    match style {
        ParamStyle::Rust | ParamStyle::Java | ParamStyle::CSharp => {
            let wanted = match style {
                ParamStyle::Rust => "parameter",
                ParamStyle::Java => "formal_parameter",
                _ => "parameter",
            };
            if str_eq(k, wanted) {
                let name = some_text(last_child_of_kind(c, "identifier"));
                let ty = trimmed_text(last_child_containing(c, "type"));
                named_param_exec(name, &ty, false, false, false)
            } else {
                Vec::new()
            }
        },
        ParamStyle::TypeScript => {
            let optional = str_eq(k, "optional_parameter");
            if str_eq(k, "required_parameter") || optional {
                let name = some_text(last_child_of_kind(c, "identifier"));
                let ty = match last_child_of_kind(c, "type_annotation") {
                    Some(a) => match &a.text {
                        Some(t) => Some(annotation_text(t.as_str())),
                        None => None,
                    },
                    None => None,
                };
                named_param_exec(name, &ty, false, optional, false)
            } else {
                Vec::new()
            }
        },
        ParamStyle::Python => {
            if str_eq(k, "identifier") {
                match &c.text {
                    Some(n) => {
                        if str_eq(n.as_str(), "self") || str_eq(n.as_str(), "cls") {
                            Vec::new()
                        } else {
                            let p = make_param(n.as_str(), &None, false, false, false);
                            let r = vec![p];
                            assert(r@ =~= seq![p]);
                            r
                        }
                    },
                    None => Vec::new(),
                }
            } else if str_eq(k, "typed_parameter") || str_eq(k, "default_parameter") || str_eq(
                k,
                "typed_default_parameter",
            ) {
                match some_text(last_child_of_kind(c, "identifier")) {
                    Some(n) => {
                        if str_eq(n.as_str(), "self") || str_eq(n.as_str(), "cls") {
                            Vec::new()
                        } else {
                            let ty = trimmed_text(last_child_of_kind(c, "type"));
                            let d = str_contains(k, "default");
                            let p = make_param(n.as_str(), &ty, d, false, false);
                            let r = vec![p];
                            assert(r@ =~= seq![p]);
                            r
                        }
                    },
                    None => Vec::new(),
                }
            } else if str_eq(k, "list_splat_pattern") || str_eq(k, "dictionary_splat_pattern") {
                let name = some_text(first_child_with_field(c, "name"));
                named_param_exec(name, &None, false, false, true)
            } else {
                Vec::new()
            }
        },
        ParamStyle::Go => {
            if str_eq(k, "parameter_declaration") {
                go_params(c)
            } else {
                Vec::new()
            }
        },
        ParamStyle::Ruby => {
            if str_eq(k, "identifier") {
                named_param_exec(node_text(c), &None, false, false, false)
            } else if str_eq(k, "optional_parameter") {
                named_param_exec(child_text_exec(c, 0), &None, true, false, false)
            } else if str_eq(k, "splat_parameter") || str_eq(k, "hash_splat_parameter") {
                named_param_exec(child_text_exec(c, 1), &None, false, false, true)
            } else if str_eq(k, "keyword_parameter") {
                named_param_exec(child_text_exec(c, 0), &None, false, false, false)
            } else {
                Vec::new()
            }
        },
    }
}

/// The parameters a parameter list declares, child by child.
pub fn parse_params(style: ParamStyle, n: &SyntaxNode) -> (r: Vec<Parameter>)
    ensures
        params_are(r@, params_of(style, n.children@)),
{
    let cs = &n.children;
    let mut r: Vec<Parameter> = Vec::new();
    let mut i: usize = 0;
    while i < cs.len()
        invariant
            0 <= i <= cs.len(),
            params_are(r@, params_of(style, cs@.take(i as int))),
        decreases cs.len() - i,
    {
        let mut more = child_params_exec(style, &cs[i]);
        proof {
            lemma_params_are_append(r@, params_of(style, cs@.take(i as int)), more@, child_params(style, cs@[i as int]));
            assert(cs@.take(i + 1).drop_last() =~= cs@.take(i as int));
        }
        let ghost joined = r@ + more@;
        r.append(&mut more);
        assert(r@ == joined);
        i = i + 1;
    }
    assert(cs@.take(cs.len() as int) =~= cs@);
    r
}

} // verus!
