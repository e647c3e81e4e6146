//! How a query match becomes an API signature: which captures name the API
//! and mark its position, how its visibility is decided, and how its
//! parameters and return type are read.
use vstd::prelude::*;

use super::change::ApiType;
use super::params::{parse_params, params_are, params_of, annotation_text, annotation_type,
    simple_type_named, trim_text, ParamStyle, ParamView};
use super::signature::{ApiSignature, Parameter, SourceLocation, TypeInfo, Visibility};
use super::syntax::{
    has_capture_text, last_capture, last_capture_exec, lemma_last_capture_in, node_text_or_empty,
    opt_text, positions_fit, some_capture_text, text_or_empty, Capture, SyntaxNode,
};
use crate::text::{contains, copy_str, str_contains, str_starts_with, trim};

verus! {

/// `char::is_uppercase`: the Unicode `Uppercase` property of a character.
pub uninterp spec fn is_uppercase_char(c: char) -> bool;

/// `char::is_uppercase`; its result is the Unicode property, named here.
/// Among ASCII characters exactly 'A' to 'Z' have it.
#[verifier::external_body]
fn char_is_uppercase(c: char) -> (r: bool)
    ensures
        r == is_uppercase_char(c),
        (c as u32) < 128 ==> (r <==> ('A' <= c && c <= 'Z')),
{
    c.is_uppercase()
}

/// How an API's visibility is decided.
#[derive(Debug, Clone, Copy, PartialEq, Eq, Structural)]
pub enum VisRule {
    /// Public when the last `vis` capture's text starts with `pub`.
    PubPrefix,
    /// Public unless the name starts with `_`.
    NoLeadingUnderscore,
    /// Public when the name starts with an uppercase character.
    Capitalized,
    /// Public when the last `modifiers` capture's text contains `public`.
    ModifiersContainPublic,
    /// Public when some `modifiers` capture's text is `public`.
    AnyModifierPublic,
    /// Always public.
    Public,
    /// Always private.
    Private,
}

/// How a return type's text is read.
#[derive(Debug, Clone, Copy, PartialEq, Eq, Structural)]
pub enum ReturnStyle {
    /// The text, trimmed.
    Trimmed,
    /// A type annotation: trimmed, without its leading `:`.
    Annotation,
}

/// How the matches of one query become signatures.
#[derive(Debug, Clone, Copy)]
pub struct MatchRule {
    /// The capture whose text is the API's name.
    pub name_capture: &'static str,
    /// The capture whose start is the API's location.
    pub anchor_capture: &'static str,
    /// The kind of API.
    pub kind: ApiType,
    /// How visibility is decided.
    pub visibility: VisRule,
    /// How the `params` capture is read, for kinds with parameters.
    pub params: Option<ParamStyle>,
    /// How the `return_type` capture is read, for kinds with one.
    pub ret: Option<ReturnStyle>,
    /// Whether a match whose name is already among the signatures is skipped.
    pub skip_known: bool,
}

/// A signature as extraction describes it.
pub struct SigView {
    pub name: Seq<char>,
    pub kind: ApiType,
    pub visibility: Visibility,
    pub exported: bool,
    pub params: Seq<ParamView>,
    pub ret: Option<Seq<char>>,
    pub file: Seq<char>,
    pub line: int,
    pub column: int,
}

/// A signature as its view describes it: simple types, no generics, no
/// module path, no byte offset.
pub open spec fn sig_is(s: ApiSignature, v: SigView) -> bool {
    &&& s.name@ == v.name
    &&& s.kind == v.kind
    &&& s.visibility == v.visibility
    &&& s.is_exported == v.exported
    &&& params_are(s.parameters@, v.params)
    &&& match (s.return_type, v.ret) {
        (Some(t), Some(n)) => simple_type_named(t, n),
        (None, None) => true,
        _ => false,
    }
    &&& s.generic_params@.len() == 0
    &&& s.mod_path is None
    &&& s.location.file@ == v.file
    &&& s.location.line == v.line
    &&& s.location.column == v.column
    &&& s.location.byte_offset == 0
}

/// Signatures as their views describe them, in order.
pub open spec fn sigs_are(ss: Seq<ApiSignature>, vs: Seq<SigView>) -> bool {
    ss.len() == vs.len() && forall|i: int| 0 <= i < ss.len() ==> sig_is(#[trigger] ss[i], vs[i])
}

/// Whether the API named `name` in match `m` is public under the rule.
pub open spec fn is_public_by(rule: VisRule, name: Seq<char>, m: Seq<Capture>) -> bool {
    match rule {
        VisRule::PubPrefix => match last_capture(m, "vis"@) {
            Some(n) => "pub"@.is_prefix_of(text_or_empty(n)),
            None => false,
        },
        VisRule::NoLeadingUnderscore => !(name.len() > 0 && name[0] == '_'),
        VisRule::Capitalized => name.len() > 0 && is_uppercase_char(name[0]),
        VisRule::ModifiersContainPublic => match last_capture(m, "modifiers"@) {
            Some(n) => contains(text_or_empty(n), "public"@),
            None => false,
        },
        VisRule::AnyModifierPublic => some_capture_text(m, "modifiers"@, "public"@),
        VisRule::Public => true,
        VisRule::Private => false,
    }
}

/// The text of a return type under a style.
pub open spec fn return_text(style: ReturnStyle, t: Seq<char>) -> Seq<char> {
    match style {
        ReturnStyle::Trimmed => trim(t),
        ReturnStyle::Annotation => annotation_type(t),
    }
}

/// The signature a match describes, when it has both a name with a text and
/// an anchor: kind and visibility by the rule, exported when public, the
/// parameters of the last `params` capture, the return type of the last
/// `return_type` capture, and the anchor's start counted from one.
pub open spec fn match_view(rule: MatchRule, path: Seq<char>, m: Seq<Capture>) -> Option<SigView> {
    match (opt_text(last_capture(m, rule.name_capture@)), last_capture(m, rule.anchor_capture@)) {
        (Some(name), Some(a)) => {
            let public = is_public_by(rule.visibility, name, m);
            Some(
                SigView {
                    name,
                    kind: rule.kind,
                    visibility: if public {
                        Visibility::Public
                    } else {
                        Visibility::Private
                    },
                    exported: public,
                    params: match rule.params {
                        Some(style) => match last_capture(m, "params"@) {
                            Some(p) => params_of(style, p.children@),
                            None => Seq::empty(),
                        },
                        None => Seq::empty(),
                    },
                    ret: match rule.ret {
                        Some(style) => match opt_text(last_capture(m, "return_type"@)) {
                            Some(t) => Some(return_text(style, t)),
                            None => None,
                        },
                        None => None,
                    },
                    file: path,
                    line: a.row + 1,
                    column: a.column + 1,
                },
            )
        },
        _ => None,
    }
}

/// Some signature has this name.
pub open spec fn has_name(vs: Seq<SigView>, name: Seq<char>) -> bool {
    exists|i: int| 0 <= i < vs.len() && #[trigger] vs[i].name == name
}

/// The signatures after reading the matches of one query, in order, after
/// those in `acc`; a match whose name is known is skipped when the rule
/// says so.
pub open spec fn apply_rule(acc: Seq<SigView>, ms: Seq<Vec<Capture>>, rule: MatchRule, path: Seq<char>) -> Seq<
    SigView,
>
    decreases ms.len(),
{
    if ms.len() == 0 {
        acc
    } else {
        let prev = apply_rule(acc, ms.drop_last(), rule, path);
        match match_view(rule, path, ms.last()@) {
            Some(v) => if rule.skip_known && has_name(prev, v.name) {
                prev
            } else {
                prev.push(v)
            },
            None => prev,
        }
    }
}

/// Whether the API named `name` in match `m` is public under the rule.
fn is_public_exec(rule: VisRule, name: &str, m: &Vec<Capture>) -> (r: bool)
    ensures
        r == is_public_by(rule, name@, m@),
{
    match rule {
        VisRule::PubPrefix => match last_capture_exec(m, "vis") {
            Some(n) => str_starts_with(node_text_or_empty(n), "pub"),
            None => false,
        },
        VisRule::NoLeadingUnderscore => {
            let cs = crate::text::chars_of(name);
            !(cs.len() > 0 && cs[0] == '_')
        },
        VisRule::Capitalized => {
            let cs = crate::text::chars_of(name);
            cs.len() > 0 && char_is_uppercase(cs[0])
        },
        VisRule::ModifiersContainPublic => match last_capture_exec(m, "modifiers") {
            Some(n) => str_contains(node_text_or_empty(n), "public"),
            None => false,
        },
        VisRule::AnyModifierPublic => has_capture_text(m, "modifiers", "public"),
        VisRule::Public => true,
        VisRule::Private => false,
    }
}

/// The signature one match describes.
pub fn match_signature(rule: &MatchRule, m: &Vec<Capture>, path: &str) -> (r: Option<ApiSignature>)
    requires
        forall|j: int| 0 <= j < m@.len() ==> #[trigger] m@[j].node.row < usize::MAX && m@[j].node.column < usize::MAX,
    ensures
        match r {
            Some(s) => match_view(*rule, path@, m@) matches Some(v) && sig_is(s, v),
            None => match_view(*rule, path@, m@) is None,
        },
{
    let name = match last_capture_exec(m, rule.name_capture) {
        Some(n) => match &n.text {
            Some(t) => t,
            None => {
                return None;
            },
        },
        None => {
            return None;
        },
    };
    let anchor = match last_capture_exec(m, rule.anchor_capture) {
        Some(a) => a,
        None => {
            return None;
        },
    };
    proof {
        lemma_last_capture_in(m@, rule.anchor_capture@);
    }
    let public = is_public_exec(rule.visibility, name.as_str(), m);
    let params: Vec<Parameter> = match rule.params {
        Some(style) => match last_capture_exec(m, "params") {
            Some(p) => parse_params(style, p),
            None => Vec::new(),
        },
        None => Vec::new(),
    };
    let ret: Option<TypeInfo> = match rule.ret {
        Some(style) => match last_capture_exec(m, "return_type") {
            Some(n) => match &n.text {
                Some(t) => {
                    let text = match style {
                        ReturnStyle::Trimmed => trim_text(t.as_str()),
                        ReturnStyle::Annotation => annotation_text(t.as_str()),
                    };
                    Some(TypeInfo::simple(text.as_str()))
                },
                None => None,
            },
            None => None,
        },
        None => None,
    };
    let s = ApiSignature {
        name: name.clone(),
        kind: rule.kind,
        visibility: if public {
            Visibility::Public
        } else {
            Visibility::Private
        },
        parameters: params,
        return_type: ret,
        generic_params: Vec::new(),
        location: SourceLocation {
            file: copy_str(path),
            line: anchor.row + 1,
            column: anchor.column + 1,
            byte_offset: 0,
        },
        mod_path: None,
        is_exported: public,
    };
    Some(s)
}

/// Whether some signature has this name.
fn has_name_exec(ss: &Vec<ApiSignature>, name: &str, Ghost(vs): Ghost<Seq<SigView>>) -> (r: bool)
    requires
        sigs_are(ss@, vs),
    ensures
        r == has_name(vs, name@),
{
    let mut i: usize = 0;
    while i < ss.len()
        invariant
            0 <= i <= ss.len(),
            sigs_are(ss@, vs),
            forall|j: int| 0 <= j < i ==> #[trigger] vs[j].name != name@,
        decreases ss.len() - i,
    {
        assert(sig_is(ss@[i as int], vs[i as int]));
        if crate::text::str_eq(ss[i].name.as_str(), name) {
            return true;
        }
        i = i + 1;
    }
    false
}

/// Read the matches of one query into signatures, after those in `out`.
pub fn apply_rule_exec(
    rule: &MatchRule,
    ms: &Vec<Vec<Capture>>,
    path: &str,
    out: &mut Vec<ApiSignature>,
    Ghost(acc): Ghost<Seq<SigView>>,
)
    requires
        positions_fit(ms@),
        sigs_are(old(out)@, acc),
    ensures
        sigs_are(final(out)@, apply_rule(acc, ms@, *rule, path@)),
{
    let mut i: usize = 0;
    while i < ms.len()
        invariant
            0 <= i <= ms.len(),
            positions_fit(ms@),
            sigs_are(out@, apply_rule(acc, ms@.take(i as int), *rule, path@)),
        decreases ms.len() - i,
    {
        let ghost prev = apply_rule(acc, ms@.take(i as int), *rule, path@);
        assert(ms@.take(i + 1).drop_last() =~= ms@.take(i as int));
        assert(ms@.take(i + 1).last() == ms@[i as int]);
        let m = &ms[i];
        assert forall|j: int| 0 <= j < m@.len() implies #[trigger] m@[j].node.row < usize::MAX
            && m@[j].node.column < usize::MAX by {
            assert(ms@[i as int]@[j] == m@[j]);
        }
        match match_signature(rule, m, path) {
            Some(s) => {
                let ghost v = match_view(*rule, path@, m@)->0;
                if rule.skip_known && has_name_exec(out, s.name.as_str(), Ghost(prev)) {
                } else {
                    out.push(s);
                    assert(sigs_are(out@, prev.push(v)));
                }
            },
            None => {},
        }
        i = i + 1;
    }
    assert(ms@.take(ms.len() as int) =~= ms@);
}

} // verus!
