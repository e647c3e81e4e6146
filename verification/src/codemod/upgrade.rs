//! Upgrade definitions and pre-built migrations: which files an upgrade
//! applies to and the text replacements it makes.
use vstd::prelude::*;

use crate::error::RefactorError;
use crate::text::{copy_str, replace_str, replace_str_exec, str_views, views};

verus! {

/// One text replacement of a transformation.
#[derive(Debug, Clone)]
pub enum TransformOp {
    /// Replace every occurrence of a literal text.
    ReplaceLiteral { from: String, to: String },
    /// Replace every match of a regular expression.
    ReplacePattern { pattern: String, replacement: String },
}

/// A text replacement, as text.
pub enum OpSpec {
    Literal(Seq<char>, Seq<char>),
    Pattern(Seq<char>, Seq<char>),
}

/// The text of a replacement.
pub open spec fn op_spec(o: TransformOp) -> OpSpec {
    match o {
        TransformOp::ReplaceLiteral { from, to } => OpSpec::Literal(from@, to@),
        TransformOp::ReplacePattern { pattern, replacement } => OpSpec::Pattern(pattern@, replacement@),
    }
}

/// The replacements of a transformation, as text.
pub open spec fn ops_spec(ops: Seq<TransformOp>) -> Seq<OpSpec> {
    ops.map_values(|o: TransformOp| op_spec(o))
}

/// A transformation: text replacements applied in order.
#[derive(Debug, Clone)]
pub struct TransformBuilder {
    pub ops: Vec<TransformOp>,
}

impl TransformBuilder {
    /// A transformation that changes nothing.
    pub fn new() -> (r: Self)
        ensures
            r.ops@.len() == 0,
    {
        TransformBuilder { ops: Vec::new() }
    }

    /// Add a literal replacement.
    pub fn replace_literal(self, from: &str, to: &str) -> (r: Self)
        ensures
            ops_spec(r.ops@) == ops_spec(self.ops@).push(OpSpec::Literal(from@, to@)),
    {
        let mut s = self;
        let ghost before = s.ops@;
        s.ops.push(TransformOp::ReplaceLiteral { from: copy_str(from), to: copy_str(to) });
        assert(ops_spec(s.ops@) =~= ops_spec(before).push(OpSpec::Literal(from@, to@)));
        s
    }

    /// Add a regular-expression replacement.
    pub fn replace_pattern(self, pattern: &str, replacement: &str) -> (r: Self)
        ensures
            ops_spec(r.ops@) == ops_spec(self.ops@).push(OpSpec::Pattern(pattern@, replacement@)),
    {
        let mut s = self;
        let ghost before = s.ops@;
        s.ops.push(
            TransformOp::ReplacePattern { pattern: copy_str(pattern), replacement: copy_str(replacement) },
        );
        assert(ops_spec(s.ops@) =~= ops_spec(before).push(OpSpec::Pattern(pattern@, replacement@)));
        s
    }
}

/// What the regex crate gives for a pattern, a text and a replacement: none
/// when the pattern does not compile, else the text with every match
/// replaced (capture references in the replacement expanded).
pub uninterp spec fn regex_replaced(pattern: Seq<char>, text: Seq<char>, replacement: Seq<char>) -> Option<Seq<char>>;

/// `regex::Regex::new(pattern)` and then `Regex::replace_all(text,
/// replacement)`: the error message when the pattern does not compile, else
/// the replaced text. The outcome is named by `regex_replaced`; the message
/// text is left unsaid.
#[verifier::external_body]
fn regex_replace_all(pattern: &str, text: &str, replacement: &str) -> (r: Result<String, String>)
    ensures
        match r {
            Ok(t) => regex_replaced(pattern@, text@, replacement@) == Some(t@),
            Err(_) => regex_replaced(pattern@, text@, replacement@) is None,
        },
{
    match regex::Regex::new(pattern) {
        Ok(re) => Ok(re.replace_all(text, replacement).into_owned()),
        Err(e) => Err(e.to_string()),
    }
}

/// A transformation's replacements applied in turn to a text; none when a
/// pattern does not compile.
pub open spec fn ops_applied(text: Seq<char>, ops: Seq<OpSpec>) -> Option<Seq<char>>
    decreases ops.len(),
{
    if ops.len() == 0 {
        Some(text)
    } else {
        match ops_applied(text, ops.drop_last()) {
            None => None,
            Some(t) => match ops.last() {
                OpSpec::Literal(from, to) => Some(replace_str(t, from, to)),
                OpSpec::Pattern(p, r) => regex_replaced(p, t, r),
            },
        }
    }
}

/// Apply a transformation to a text: each replacement in turn, a literal
/// one replacing every occurrence, a pattern one every match. A pattern
/// that does not compile is a regex error.
pub fn apply_transform(text: &str, transform: &TransformBuilder) -> (r: Result<String, RefactorError>)
    ensures
        match r {
            Ok(t) => ops_applied(text@, ops_spec(transform.ops@)) == Some(t@),
            Err(e) => ops_applied(text@, ops_spec(transform.ops@)) is None && e is Regex,
        },
{
    let mut out = copy_str(text);
    let mut i: usize = 0;
    while i < transform.ops.len()
        invariant
            0 <= i <= transform.ops@.len(),
            ops_applied(text@, ops_spec(transform.ops@.take(i as int))) == Some(out@),
        decreases transform.ops.len() - i,
    {
        assert(ops_spec(transform.ops@.take(i + 1)).drop_last() =~= ops_spec(transform.ops@.take(i as int)));
        assert(ops_spec(transform.ops@.take(i + 1)).last() == op_spec(transform.ops@[i as int]));
        out = match &transform.ops[i] {
            TransformOp::ReplaceLiteral { from, to } => replace_str_exec(out.as_str(), from.as_str(), to.as_str()),
            TransformOp::ReplacePattern { pattern, replacement } => {
                match regex_replace_all(pattern.as_str(), out.as_str(), replacement.as_str()) {
                    Ok(t) => t,
                    Err(m) => {
                        proof {
                            assert(ops_spec(transform.ops@).take(i + 1) =~= ops_spec(transform.ops@.take(i + 1)));
                            lemma_ops_fail_stays(text@, ops_spec(transform.ops@), i as int + 1);
                        }
                        return Err(RefactorError::Regex(m));
                    },
                }
            },
        };
        i = i + 1;
    }
    assert(transform.ops@.take(transform.ops@.len() as int) =~= transform.ops@);
    Ok(out)
}

/// Once a pattern fails to compile, the whole transformation fails.
proof fn lemma_ops_fail_stays(text: Seq<char>, ops: Seq<OpSpec>, n: int)
    requires
        0 <= n <= ops.len(),
        ops_applied(text, ops.take(n)) is None,
    ensures
        ops_applied(text, ops) is None,
    decreases ops.len() - n,
{
    if n < ops.len() {
        assert(ops.take(n + 1).drop_last() =~= ops.take(n));
        lemma_ops_fail_stays(text, ops, n + 1);
    } else {
        assert(ops.take(n) =~= ops);
    }
}

/// Which files an upgrade applies to: those with one of the extensions,
/// except those matching an exclusion glob.
#[derive(Debug, Clone)]
pub struct Matcher {
    pub extensions: Vec<String>,
    pub excludes: Vec<String>,
}

impl Matcher {
    /// A matcher with no extensions and no exclusions.
    pub fn new() -> (r: Self)
        ensures
            r.extensions@.len() == 0,
            r.excludes@.len() == 0,
    {
        Matcher { extensions: Vec::new(), excludes: Vec::new() }
    }

    /// Set the file extensions.
    pub fn extensions(self, exts: &[&str]) -> (r: Self)
        ensures
            views(r.extensions@) == str_views(exts@),
            r.excludes == self.excludes,
    {
        Matcher { extensions: crate::lsp::config::owned_strings(exts), ..self }
    }

    /// Add an exclusion glob.
    pub fn exclude(self, glob: &str) -> (r: Self)
        ensures
            r.extensions == self.extensions,
            views(r.excludes@) == views(self.excludes@).push(glob@),
    {
        let mut s = self;
        let ghost before = s.excludes@;
        s.excludes.push(copy_str(glob));
        assert(views(s.excludes@) =~= views(before).push(glob@));
        s
    }
}

/// A composable upgrade/migration that can be applied to repositories.
pub trait Upgrade {
    /// Unique name for this upgrade.
    fn name(&self) -> &str;

    /// Human-readable description of what this upgrade does.
    fn description(&self) -> &str;

    /// The matching criteria for files this upgrade applies to.
    fn matcher(&self) -> Matcher;

    /// The transformations to apply.
    fn transform(&self) -> TransformBuilder;
}

/// The transformation steps of the angular upgrade.
pub open spec fn angular_upgrade_ops() -> Seq<OpSpec> {
    seq![
        OpSpec::Literal(r#"import { HttpModule } from '@angular/http';"#@, r#"import { HttpClientModule } from '@angular/common/http';"#@),
        OpSpec::Literal(r#"import { Http, Headers, RequestOptions, Response } from '@angular/http';"#@, r#"import { HttpClient, HttpHeaders, HttpResponse, HttpErrorResponse } from '@angular/common/http';"#@),
        OpSpec::Literal(r#"import { Http, Response } from '@angular/http';"#@, r#"import { HttpClient, HttpResponse } from '@angular/common/http';"#@),
        OpSpec::Literal(r#"import { Http } from '@angular/http';"#@, r#"import { HttpClient } from '@angular/common/http';"#@),
        OpSpec::Literal(r#"HttpModule,"#@, r#"HttpClientModule,"#@),
        OpSpec::Literal(r#"HttpModule"#@, r#"HttpClientModule"#@),
        OpSpec::Literal(r#": Http)"#@, r#": HttpClient)"#@),
        OpSpec::Literal(r#": Http,"#@, r#": HttpClient,"#@),
        OpSpec::Literal(r#"import { Observable } from 'rxjs/Observable';"#@, r#"import { Observable } from 'rxjs';"#@),
        OpSpec::Literal(r#"import { Subject } from 'rxjs/Subject';"#@, r#"import { Subject } from 'rxjs';"#@),
        OpSpec::Literal(r#"import { BehaviorSubject } from 'rxjs/BehaviorSubject';"#@, r#"import { BehaviorSubject } from 'rxjs';"#@),
        OpSpec::Literal(r#"import { ReplaySubject } from 'rxjs/ReplaySubject';"#@, r#"import { ReplaySubject } from 'rxjs';"#@),
        OpSpec::Literal(r#"import { Subscription } from 'rxjs/Subscription';"#@, r#"import { Subscription } from 'rxjs';"#@),
        OpSpec::Pattern(r#"import 'rxjs/add/operator/\w+';[\r\n]*"#@, r#""#@),
        OpSpec::Pattern(r#"import 'rxjs/add/observable/\w+';[\r\n]*"#@, r#""#@),
        OpSpec::Pattern(r#"\.map\(\s*\(?\s*res(?:ponse)?\s*:?\s*Response\s*\)?\s*=>\s*res(?:ponse)?\.json\(\)\s*\)"#@, r#""#@),
    ]
}

/// The transformation steps of the rxjs upgrade.
pub open spec fn rxjs_upgrade_ops() -> Seq<OpSpec> {
    seq![
        OpSpec::Literal(r#"import { Observable } from 'rxjs/Observable';"#@, r#"import { Observable } from 'rxjs';"#@),
        OpSpec::Literal(r#"import { Subject } from 'rxjs/Subject';"#@, r#"import { Subject } from 'rxjs';"#@),
        OpSpec::Literal(r#"import { BehaviorSubject } from 'rxjs/BehaviorSubject';"#@, r#"import { BehaviorSubject } from 'rxjs';"#@),
        OpSpec::Literal(r#"import { ReplaySubject } from 'rxjs/ReplaySubject';"#@, r#"import { ReplaySubject } from 'rxjs';"#@),
        OpSpec::Literal(r#"import { AsyncSubject } from 'rxjs/AsyncSubject';"#@, r#"import { AsyncSubject } from 'rxjs';"#@),
        OpSpec::Literal(r#"import { Subscription } from 'rxjs/Subscription';"#@, r#"import { Subscription } from 'rxjs';"#@),
        OpSpec::Literal(r#"Observable.of("#@, r#"of("#@),
        OpSpec::Literal(r#"Observable.from("#@, r#"from("#@),
        OpSpec::Literal(r#"Observable.fromEvent("#@, r#"fromEvent("#@),
        OpSpec::Literal(r#"Observable.fromPromise("#@, r#"from("#@),
        OpSpec::Literal(r#"Observable.interval("#@, r#"interval("#@),
        OpSpec::Literal(r#"Observable.timer("#@, r#"timer("#@),
        OpSpec::Literal(r#"Observable.combineLatest("#@, r#"combineLatest("#@),
        OpSpec::Literal(r#"Observable.forkJoin("#@, r#"forkJoin("#@),
        OpSpec::Literal(r#"Observable.merge("#@, r#"merge("#@),
        OpSpec::Literal(r#"Observable.concat("#@, r#"concat("#@),
        OpSpec::Literal(r#"Observable.zip("#@, r#"zip("#@),
        OpSpec::Literal(r#"Observable.race("#@, r#"race("#@),
        OpSpec::Literal(r#"Observable.empty()"#@, r#"EMPTY"#@),
        OpSpec::Literal(r#"Observable.never()"#@, r#"NEVER"#@),
        OpSpec::Literal(r#"Observable.throw("#@, r#"throwError("#@),
        OpSpec::Pattern(r#"import 'rxjs/add/operator/\w+';[\r\n]*"#@, r#""#@),
        OpSpec::Pattern(r#"import 'rxjs/add/observable/\w+';[\r\n]*"#@, r#""#@),
    ]
}

/// Angular v4/v5 to v15+ upgrade: `@angular/http` to
/// `@angular/common/http`, `Http` to `HttpClient`, RxJS barrel imports, and
/// no more `.json()` calls.
pub struct AngularV4V5Upgrade;

impl Upgrade for AngularV4V5Upgrade {
    fn name(&self) -> (r: &str)
        ensures
            r@ == "angular-v4v5-upgrade"@,
    {
        "angular-v4v5-upgrade"
    }

    fn description(&self) -> (r: &str)
        ensures
            r@ == "Upgrade Angular applications from v4/v5 to v15+ (HttpModule -> HttpClientModule, RxJS updates)"@,
    {
        "Upgrade Angular applications from v4/v5 to v15+ (HttpModule -> HttpClientModule, RxJS updates)"
    }

    fn matcher(&self) -> (r: Matcher)
        ensures
            views(r.extensions@) == seq!["ts"@, "tsx"@],
            views(r.excludes@) == seq!["**/node_modules/**"@, "**/*.spec.ts"@, "**/*.test.ts"@],
    {
        let m = Matcher::new().extensions(&["ts", "tsx"]).exclude("**/node_modules/**").exclude(
            "**/*.spec.ts",
        ).exclude("**/*.test.ts");
        assert(views(m.extensions@) =~= seq!["ts"@, "tsx"@]);
        assert(views(m.excludes@) =~= seq!["**/node_modules/**"@, "**/*.spec.ts"@, "**/*.test.ts"@]);
        m
    }

    fn transform(&self) -> (r: TransformBuilder)
        ensures
            ops_spec(r.ops@) == angular_upgrade_ops(),
    {
        let t = TransformBuilder::new()
            .replace_literal(r#"import { HttpModule } from '@angular/http';"#, r#"import { HttpClientModule } from '@angular/common/http';"#)
            .replace_literal(r#"import { Http, Headers, RequestOptions, Response } from '@angular/http';"#, r#"import { HttpClient, HttpHeaders, HttpResponse, HttpErrorResponse } from '@angular/common/http';"#)
            .replace_literal(r#"import { Http, Response } from '@angular/http';"#, r#"import { HttpClient, HttpResponse } from '@angular/common/http';"#)
            .replace_literal(r#"import { Http } from '@angular/http';"#, r#"import { HttpClient } from '@angular/common/http';"#)
            .replace_literal(r#"HttpModule,"#, r#"HttpClientModule,"#)
            .replace_literal(r#"HttpModule"#, r#"HttpClientModule"#)
            .replace_literal(r#": Http)"#, r#": HttpClient)"#)
            .replace_literal(r#": Http,"#, r#": HttpClient,"#)
            .replace_literal(r#"import { Observable } from 'rxjs/Observable';"#, r#"import { Observable } from 'rxjs';"#)
            .replace_literal(r#"import { Subject } from 'rxjs/Subject';"#, r#"import { Subject } from 'rxjs';"#)
            .replace_literal(r#"import { BehaviorSubject } from 'rxjs/BehaviorSubject';"#, r#"import { BehaviorSubject } from 'rxjs';"#)
            .replace_literal(r#"import { ReplaySubject } from 'rxjs/ReplaySubject';"#, r#"import { ReplaySubject } from 'rxjs';"#)
            .replace_literal(r#"import { Subscription } from 'rxjs/Subscription';"#, r#"import { Subscription } from 'rxjs';"#)
            .replace_pattern(r#"import 'rxjs/add/operator/\w+';[\r\n]*"#, r#""#)
            .replace_pattern(r#"import 'rxjs/add/observable/\w+';[\r\n]*"#, r#""#)
            .replace_pattern(r#"\.map\(\s*\(?\s*res(?:ponse)?\s*:?\s*Response\s*\)?\s*=>\s*res(?:ponse)?\.json\(\)\s*\)"#, r#""#);
        assert(ops_spec(t.ops@) =~= angular_upgrade_ops());
        t
    }
}

/// Convenience function to create an Angular upgrade.
pub fn angular_v4v5_upgrade() -> (r: AngularV4V5Upgrade) {
    AngularV4V5Upgrade
}

/// RxJS v5 to v6+ migration: barrel imports, standalone creation functions,
/// and no more patched operator imports.
pub struct RxJS5To6Upgrade;

impl Upgrade for RxJS5To6Upgrade {
    fn name(&self) -> (r: &str)
        ensures
            r@ == "rxjs-5-to-6"@,
    {
        "rxjs-5-to-6"
    }

    fn description(&self) -> (r: &str)
        ensures
            r@ == "Migrate RxJS from v5 to v6+ with pipeable operators"@,
    {
        "Migrate RxJS from v5 to v6+ with pipeable operators"
    }

    fn matcher(&self) -> (r: Matcher)
        ensures
            views(r.extensions@) == seq!["ts"@, "js"@, "tsx"@, "jsx"@],
            views(r.excludes@) == seq!["**/node_modules/**"@],
    {
        let m = Matcher::new().extensions(&["ts", "js", "tsx", "jsx"]).exclude("**/node_modules/**");
        assert(views(m.extensions@) =~= seq!["ts"@, "js"@, "tsx"@, "jsx"@]);
        assert(views(m.excludes@) =~= seq!["**/node_modules/**"@]);
        m
    }

    fn transform(&self) -> (r: TransformBuilder)
        ensures
            ops_spec(r.ops@) == rxjs_upgrade_ops(),
    {
        let t = TransformBuilder::new()
            .replace_literal(r#"import { Observable } from 'rxjs/Observable';"#, r#"import { Observable } from 'rxjs';"#)
            .replace_literal(r#"import { Subject } from 'rxjs/Subject';"#, r#"import { Subject } from 'rxjs';"#)
            .replace_literal(r#"import { BehaviorSubject } from 'rxjs/BehaviorSubject';"#, r#"import { BehaviorSubject } from 'rxjs';"#)
            .replace_literal(r#"import { ReplaySubject } from 'rxjs/ReplaySubject';"#, r#"import { ReplaySubject } from 'rxjs';"#)
            .replace_literal(r#"import { AsyncSubject } from 'rxjs/AsyncSubject';"#, r#"import { AsyncSubject } from 'rxjs';"#)
            .replace_literal(r#"import { Subscription } from 'rxjs/Subscription';"#, r#"import { Subscription } from 'rxjs';"#)
            .replace_literal(r#"Observable.of("#, r#"of("#)
            .replace_literal(r#"Observable.from("#, r#"from("#)
            .replace_literal(r#"Observable.fromEvent("#, r#"fromEvent("#)
            .replace_literal(r#"Observable.fromPromise("#, r#"from("#)
            .replace_literal(r#"Observable.interval("#, r#"interval("#)
            .replace_literal(r#"Observable.timer("#, r#"timer("#)
            .replace_literal(r#"Observable.combineLatest("#, r#"combineLatest("#)
            .replace_literal(r#"Observable.forkJoin("#, r#"forkJoin("#)
            .replace_literal(r#"Observable.merge("#, r#"merge("#)
            .replace_literal(r#"Observable.concat("#, r#"concat("#)
            .replace_literal(r#"Observable.zip("#, r#"zip("#)
            .replace_literal(r#"Observable.race("#, r#"race("#)
            .replace_literal(r#"Observable.empty()"#, r#"EMPTY"#)
            .replace_literal(r#"Observable.never()"#, r#"NEVER"#)
            .replace_literal(r#"Observable.throw("#, r#"throwError("#)
            .replace_pattern(r#"import 'rxjs/add/operator/\w+';[\r\n]*"#, r#""#)
            .replace_pattern(r#"import 'rxjs/add/observable/\w+';[\r\n]*"#, r#""#);
        assert(ops_spec(t.ops@) =~= rxjs_upgrade_ops());
        t
    }
}

/// Convenience function to create an RxJS upgrade.
pub fn rxjs_5_to_6_upgrade() -> (r: RxJS5To6Upgrade) {
    RxJS5To6Upgrade
}

/// Calls a caller-supplied builder closure (`Fn::call`). What it builds is
/// the closure's own affair; nothing is stated of it.
#[verifier::external_body]
fn call_builder<B, F: Fn() -> B>(f: &F) -> B {
    f()
}

/// A closure-based upgrade for quick custom transformations.
pub struct ClosureUpgrade<M, T> where M: Fn() -> Matcher, T: Fn() -> TransformBuilder {
    pub name: String,
    pub description: String,
    pub matcher_fn: M,
    pub transform_fn: T,
}

impl<M, T> ClosureUpgrade<M, T> where M: Fn() -> Matcher, T: Fn() -> TransformBuilder {
    /// Create a new closure-based upgrade.
    pub fn new(name: &str, description: &str, matcher_fn: M, transform_fn: T) -> (r: Self)
        ensures
            r.name@ == name@,
            r.description@ == description@,
            r.matcher_fn == matcher_fn,
            r.transform_fn == transform_fn,
    {
        ClosureUpgrade {
            name: copy_str(name),
            description: copy_str(description),
            matcher_fn,
            transform_fn,
        }
    }
}

impl<M, T> Upgrade for ClosureUpgrade<M, T> where M: Fn() -> Matcher, T: Fn() -> TransformBuilder {
    fn name(&self) -> (r: &str)
        ensures
            r@ == self.name@,
    {
        self.name.as_str()
    }

    fn description(&self) -> (r: &str)
        ensures
            r@ == self.description@,
    {
        self.description.as_str()
    }

    /// The matcher that the upgrade's matcher closure builds.
    fn matcher(&self) -> Matcher {
        call_builder(&self.matcher_fn)
    }

    /// The transformation that the upgrade's transform closure builds.
    fn transform(&self) -> TransformBuilder {
        call_builder(&self.transform_fn)
    }
}

} // verus!
