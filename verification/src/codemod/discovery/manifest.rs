//! Reading the declared dependencies (name to version text) out of package
//! manager manifests.
use vstd::prelude::*;

use crate::scan::{
    concat_chars, find_any, find_any_exec, lines, lines_chars, split_ws, split_ws_chars,
    trim_set, trim_set_exec, trim_start_str, trim_start_str_exec,
};
use crate::strmap::StrMap;
use crate::text::{
    chars_eq, chars_of, contains, find, find_char, find_char_exec, find_exec, split, split_chars,
    starts_with, string_of, sub_chars, trim, trim_char, trim_char_exec, trim_chars, vec_views,
};

verus! {

/// Dependency names mapped to their version text.
pub type DepsView = Map<Seq<char>, Seq<char>>;

// ---------------------------------------------------------------------------
// Cargo.toml
// ---------------------------------------------------------------------------
/// The version in an inline TOML table such as `{ version = "1.0" }`: the
/// quoted text after the first `=` that follows the first `version`, or `*`.
pub open spec fn cargo_table_version(table: Seq<char>) -> Seq<char> {
    match find(table, "version"@) {
        Some(p) => {
            let after = table.skip(p + 7);
            match find_char(after, '=') {
                Some(e) => {
                    let value = trim(after.skip(e + 1));
                    if value.len() > 0 && value[0] == '"' {
                        match find_char(value.skip(1), '"') {
                            Some(end) => value.subrange(1, end + 1),
                            None => "*"@,
                        }
                    } else {
                        "*"@
                    }
                },
                None => "*"@,
            }
        },
        None => "*"@,
    }
}

/// One line of `Cargo.toml`: section headers switch the dependency sections
/// on and off; inside them `name = value` records a dependency.
pub open spec fn cargo_step(st: (bool, DepsView), l: Seq<char>) -> (bool, DepsView) {
    let t = trim(l);
    if t == "[dependencies]"@ || t == "[dev-dependencies]"@ {
        (true, st.1)
    } else if t.len() > 0 && t[0] == '[' {
        (false, st.1)
    } else if st.0 {
        match find_char(t, '=') {
            Some(eq) => {
                let name = trim(t.take(eq));
                let value = trim(t.skip(eq + 1));
                let version = if value.len() > 0 && value[0] == '"' {
                    trim_char(value, '"')
                } else if value.len() > 0 && value[0] == '{' {
                    cargo_table_version(value)
                } else {
                    "*"@
                };
                (true, st.1.insert(name, version))
            },
            None => st,
        }
    } else {
        st
    }
}

/// The dependencies and dev-dependencies that a `Cargo.toml` declares.
pub open spec fn cargo_deps(content: Seq<char>) -> DepsView {
    lines(content).fold_left(
        (false, Map::empty()),
        |st: (bool, DepsView), l: Seq<char>| cargo_step(st, l),
    ).1
}

// ---------------------------------------------------------------------------
// JSON manifests (package.json, composer.json)
// ---------------------------------------------------------------------------
/// One `"name": "version"` piece of a JSON dependency object.
pub open spec fn json_pair_step(m: DepsView, piece: Seq<char>) -> DepsView {
    let t = trim(piece);
    match find_char(t, ':') {
        Some(c) => {
            let name = trim_char(trim(t.take(c)), '"');
            let version = trim_char(trim(t.skip(c + 1)), '"');
            if name.len() > 0 {
                m.insert(name, version)
            } else {
                m
            }
        },
        None => m,
    }
}

/// `m` with the pairs of the object that follows the first `"section"` in a
/// JSON text, up to its first closing brace.
pub open spec fn json_section_deps(m: DepsView, content: Seq<char>, section: Seq<char>) -> DepsView {
    let pattern = seq!['"'] + section + seq!['"'];
    match find(content, pattern) {
        Some(start) => {
            let after = content.skip(start + pattern.len());
            match find_char(after, '{') {
                Some(b) => {
                    let inner = after.skip(b + 1);
                    match find_char(inner, '}') {
                        Some(e) => split(inner.take(e), ',').fold_left(
                            m,
                            |acc: DepsView, p: Seq<char>| json_pair_step(acc, p),
                        ),
                        None => m,
                    }
                },
                None => m,
            }
        },
        None => m,
    }
}

/// The dependencies, dev- and peer dependencies of a `package.json`.
pub open spec fn npm_deps(content: Seq<char>) -> DepsView {
    json_section_deps(
        json_section_deps(
            json_section_deps(Map::empty(), content, "dependencies"@),
            content,
            "devDependencies"@,
        ),
        content,
        "peerDependencies"@,
    )
}

/// The requirements of a `composer.json`.
pub open spec fn composer_deps(content: Seq<char>) -> DepsView {
    json_section_deps(json_section_deps(Map::empty(), content, "require"@), content, "require-dev"@)
}

// ---------------------------------------------------------------------------
// Python (requirements.txt, pyproject.toml)
// ---------------------------------------------------------------------------
/// One line of `requirements.txt`: `name==version`, `name>=version`,
/// `name<=version` or a bare name; blank lines and comments are skipped.
pub open spec fn requirement_step(m: DepsView, l: Seq<char>) -> DepsView {
    let t = trim(l);
    if t.len() == 0 || t[0] == '#' {
        m
    } else {
        match find(t, "=="@) {
            Some(e) => m.insert(t.take(e), t.skip(e + 2)),
            None => match find(t, ">="@) {
                Some(g) => m.insert(t.take(g), t.skip(g)),
                None => match find(t, "<="@) {
                    Some(g) => m.insert(t.take(g), t.skip(g)),
                    None => m.insert(t, "*"@),
                },
            },
        }
    }
}

/// The requirements that a `requirements.txt` lists.
pub open spec fn requirements_deps(m: DepsView, content: Seq<char>) -> DepsView {
    lines(content).fold_left(m, |acc: DepsView, l: Seq<char>| requirement_step(acc, l))
}

/// The characters that start a version operator in `pyproject.toml`.
pub open spec fn version_ops() -> Seq<char> {
    seq!['>', '<', '=', '~']
}

/// One item of the `dependencies` array of a `pyproject.toml`.
pub open spec fn pyproject_item_step(m: DepsView, item: Seq<char>) -> DepsView {
    let it = trim_char(trim_char(trim(item), '"'), '\'');
    match find_any(it, version_ops()) {
        Some(o) => m.insert(it.take(o), it.skip(o)),
        None => if it.len() > 0 {
            m.insert(it, "*"@)
        } else {
            m
        },
    }
}

/// `m` with the items of the first bracketed list after the first
/// `dependencies` in a `pyproject.toml`.
pub open spec fn pyproject_deps(m: DepsView, content: Seq<char>) -> DepsView {
    match find(content, "dependencies"@) {
        Some(d) => {
            let after = content.skip(d);
            match find_char(after, '[') {
                Some(b) => {
                    let inner = after.skip(b + 1);
                    match find_char(inner, ']') {
                        Some(e) => split(inner.take(e), ',').fold_left(
                            m,
                            |acc: DepsView, p: Seq<char>| pyproject_item_step(acc, p),
                        ),
                        None => m,
                    }
                },
                None => m,
            }
        },
        None => m,
    }
}

/// The Python dependencies of a `requirements.txt` and a `pyproject.toml`,
/// where present, the latter's entries overriding the former's.
pub open spec fn pip_deps(requirements: Option<Seq<char>>, pyproject: Option<Seq<char>>) -> DepsView {
    let m = match requirements {
        Some(c) => requirements_deps(Map::empty(), c),
        None => Map::empty(),
    };
    match pyproject {
        Some(c) => pyproject_deps(m, c),
        None => m,
    }
}

// ---------------------------------------------------------------------------
// Maven (pom.xml)
// ---------------------------------------------------------------------------
/// The text between `<tag>` and `</tag>` in a line, after the first `<tag>`.
pub open spec fn xml_value(line: Seq<char>, tag: Seq<char>) -> Option<Seq<char>> {
    let open = seq!['<'] + tag + seq!['>'];
    let close = seq!['<', '/'] + tag + seq!['>'];
    match find(line, open) {
        Some(s) => {
            let after = line.skip(s + open.len());
            match find(after, close) {
                Some(e) => Some(after.take(e)),
                None => None,
            }
        },
        None => None,
    }
}

/// The element value in a line, or `current` when the line has none.
pub open spec fn xml_value_or(line: Seq<char>, tag: Seq<char>, current: Seq<char>) -> Seq<char> {
    match xml_value(line, tag) {
        Some(v) => v,
        None => current,
    }
}

/// The state of the `pom.xml` reader: inside a `<dependency>`, the group,
/// artifact and version seen there, and the dependencies so far.
pub type MavenState = (bool, Seq<char>, Seq<char>, Seq<char>, DepsView);

/// One line of a `pom.xml`.
pub open spec fn maven_step(st: MavenState, l: Seq<char>) -> MavenState {
    let t = trim(l);
    if contains(t, "<dependency>"@) {
        (true, Seq::empty(), Seq::empty(), Seq::empty(), st.4)
    } else if contains(t, "</dependency>"@) {
        let m = if st.0 && st.2.len() > 0 {
            let name = if st.1.len() == 0 {
                st.2
            } else {
                st.1 + ":"@ + st.2
            };
            let version = if st.3.len() == 0 {
                "*"@
            } else {
                st.3
            };
            st.4.insert(name, version)
        } else {
            st.4
        };
        (false, st.1, st.2, st.3, m)
    } else if st.0 {
        (
            true,
            xml_value_or(t, "groupId"@, st.1),
            xml_value_or(t, "artifactId"@, st.2),
            xml_value_or(t, "version"@, st.3),
            st.4,
        )
    } else {
        st
    }
}

/// The dependencies of a `pom.xml`, named `group:artifact` (or the artifact
/// alone when the group is empty).
pub open spec fn maven_deps(content: Seq<char>) -> DepsView {
    lines(content).fold_left(
        (false, Seq::empty(), Seq::empty(), Seq::empty(), Map::empty()),
        |st: MavenState, l: Seq<char>| maven_step(st, l),
    ).4
}

// ---------------------------------------------------------------------------
// Gradle (build.gradle, build.gradle.kts)
// ---------------------------------------------------------------------------
/// The quote characters of a Gradle dependency string.
pub open spec fn gradle_quotes() -> Seq<char> {
    seq!['\'', '"']
}

/// The text inside the first quoted string of a line.
pub open spec fn gradle_dep(line: Seq<char>) -> Option<Seq<char>> {
    match find_any(line, gradle_quotes()) {
        Some(s) => {
            let after = line.skip(s + 1);
            match find_char(after, line[s]) {
                Some(e) => Some(after.take(e)),
                None => None,
            }
        },
        None => None,
    }
}

/// The line declares a dependency configuration.
pub open spec fn gradle_config_line(t: Seq<char>) -> bool {
    "implementation"@.is_prefix_of(t) || "api"@.is_prefix_of(t) || "compile"@.is_prefix_of(t)
        || "testImplementation"@.is_prefix_of(t)
}

/// One line of a Gradle build file: `group:artifact[:version]`.
pub open spec fn gradle_step(m: DepsView, l: Seq<char>) -> DepsView {
    let t = trim(l);
    if gradle_config_line(t) {
        match gradle_dep(t) {
            Some(dep) => {
                let parts = split(dep, ':');
                if parts.len() >= 2 {
                    m.insert(
                        parts[0] + ":"@ + parts[1],
                        if parts.len() > 2 {
                            parts[2]
                        } else {
                            "*"@
                        },
                    )
                } else {
                    m
                }
            },
            None => m,
        }
    } else {
        m
    }
}

/// `m` with the dependencies of one Gradle build file.
pub open spec fn gradle_file_deps(m: DepsView, content: Seq<char>) -> DepsView {
    lines(content).fold_left(m, |acc: DepsView, l: Seq<char>| gradle_step(acc, l))
}

/// The dependencies of `build.gradle` and then `build.gradle.kts`, where present.
pub open spec fn gradle_deps(groovy: Option<Seq<char>>, kotlin: Option<Seq<char>>) -> DepsView {
    let m = match groovy {
        Some(c) => gradle_file_deps(Map::empty(), c),
        None => Map::empty(),
    };
    match kotlin {
        Some(c) => gradle_file_deps(m, c),
        None => m,
    }
}

// ---------------------------------------------------------------------------
// Bundler (Gemfile)
// ---------------------------------------------------------------------------
/// The quote characters trimmed from Gemfile names and versions.
pub open spec fn gem_quotes() -> Seq<char> {
    seq!['\'', '"']
}

/// One line of a `Gemfile`: `gem 'name'[, 'version']`.
pub open spec fn gem_step(m: DepsView, l: Seq<char>) -> DepsView {
    let t = trim(l);
    if "gem "@.is_prefix_of(t) {
        let parts = split(trim(t.skip(4)), ',');
        let name = trim_set(trim(parts[0]), gem_quotes());
        let version = if parts.len() > 1 {
            trim_set(trim(parts[1]), gem_quotes())
        } else {
            "*"@
        };
        m.insert(name, version)
    } else {
        m
    }
}

/// The gems of a `Gemfile`.
pub open spec fn bundler_deps(content: Seq<char>) -> DepsView {
    lines(content).fold_left(Map::empty(), |acc: DepsView, l: Seq<char>| gem_step(acc, l))
}

// ---------------------------------------------------------------------------
// Go modules (go.mod)
// ---------------------------------------------------------------------------
/// One line of a `go.mod`: `require (` opens a block, `)` closes it; inside it,
/// or after `require `, `module version` records a requirement.
pub open spec fn gomod_step(st: (bool, DepsView), l: Seq<char>) -> (bool, DepsView) {
    let t = trim(l);
    if t == "require ("@ {
        (true, st.1)
    } else if t == ")"@ {
        (false, st.1)
    } else if st.0 || "require "@.is_prefix_of(t) {
        let parts = split_ws(trim_start_str(t, "require "@));
        if parts.len() >= 2 {
            (st.0, st.1.insert(parts[0], parts[1]))
        } else {
            st
        }
    } else {
        st
    }
}

/// The requirements of a `go.mod`.
pub open spec fn gomod_deps(content: Seq<char>) -> DepsView {
    lines(content).fold_left(
        (false, Map::empty()),
        |st: (bool, DepsView), l: Seq<char>| gomod_step(st, l),
    ).1
}

// ---------------------------------------------------------------------------
// NuGet (*.csproj)
// ---------------------------------------------------------------------------
/// The value of the XML attribute `attr="..."` in a line.
pub open spec fn xml_attr(line: Seq<char>, attr: Seq<char>) -> Option<Seq<char>> {
    let pattern = attr + seq!['=', '"'];
    match find(line, pattern) {
        Some(s) => {
            let after = line.skip(s + pattern.len());
            match find_char(after, '"') {
                Some(e) => Some(after.take(e)),
                None => None,
            }
        },
        None => None,
    }
}

/// One line of a project file: a `PackageReference` with both `Include` and
/// `Version` records a package.
pub open spec fn nuget_step(m: DepsView, l: Seq<char>) -> DepsView {
    if contains(l, "PackageReference"@) {
        match (xml_attr(l, "Include"@), xml_attr(l, "Version"@)) {
            (Some(n), Some(v)) => m.insert(n, v),
            _ => m,
        }
    } else {
        m
    }
}

/// `m` with the package references of one project file.
pub open spec fn nuget_file_deps(m: DepsView, content: Seq<char>) -> DepsView {
    lines(content).fold_left(m, |acc: DepsView, l: Seq<char>| nuget_step(acc, l))
}

// ---------------------------------------------------------------------------
// Executable readers
// ---------------------------------------------------------------------------
/// The version in an inline TOML dependency table.
pub fn cargo_table_version_exec(table: &Vec<char>) -> (r: Vec<char>)
    ensures
        r@ == cargo_table_version(table@),
{
    let star = chars_of("*");
    let version = chars_of("version");
    proof {
        reveal_strlit("version");
    }
    match find_exec(table, &version) {
        Some(p) => {
            proof {
                crate::text::lemma_find_from_props(table@, version@, 0);
            }
            assert(crate::text::occurs_at(table@, version@, p as int));
            assert(version@.len() == 7);
            assert(p + 7 <= table@.len());
            assert(p + 7 <= table.len());
            let after = sub_chars(table, p + 7, table.len());
            assert(after@ =~= table@.skip(p + 7));
            match find_char_exec(&after, '=') {
                Some(e) => {
                    proof {
                        crate::text::lemma_find_from_props(after@, seq!['='], 0);
                    }
                    let rest = sub_chars(&after, e + 1, after.len());
                    assert(rest@ =~= after@.skip(e + 1));
                    let value = trim_chars(&rest);
                    if value.len() > 0 && value[0] == '"' {
                        let tail = sub_chars(&value, 1, value.len());
                        assert(tail@ =~= value@.skip(1));
                        match find_char_exec(&tail, '"') {
                            Some(end) => {
                                proof {
                                    crate::text::lemma_find_from_props(tail@, seq!['"'], 0);
                                }
                                let v = sub_chars(&value, 1, end + 1);
                                v
                            },
                            None => star,
                        }
                    } else {
                        star
                    }
                },
                None => star,
            }
        },
        None => star,
    }
}

/// Apply one `Cargo.toml` line.
fn cargo_line(in_section: bool, m: &mut StrMap<String>, l: &Vec<char>) -> (r: bool)
    ensures
        (r, final(m)@) == cargo_step((in_section, old(m)@), l@),
{
    let t = trim_chars(l);
    if chars_eq(&t, &chars_of("[dependencies]")) || chars_eq(&t, &chars_of("[dev-dependencies]")) {
        return true;
    }
    if t.len() > 0 && t[0] == '[' {
        return false;
    }
    if !in_section {
        return false;
    }
    match find_char_exec(&t, '=') {
        Some(eq) => {
            proof {
                crate::text::lemma_find_from_props(t@, seq!['='], 0);
            }
            let head = sub_chars(&t, 0, eq);
            let tail = sub_chars(&t, eq + 1, t.len());
            assert(head@ =~= t@.take(eq as int));
            assert(tail@ =~= t@.skip(eq + 1));
            let name = trim_chars(&head);
            let value = trim_chars(&tail);
            let version = if value.len() > 0 && value[0] == '"' {
                trim_char_exec(&value, '"')
            } else if value.len() > 0 && value[0] == '{' {
                cargo_table_version_exec(&value)
            } else {
                chars_of("*")
            };
            m.insert(string_of(&name), string_of(&version));
            true
        },
        None => true,
    }
}

/// The dependencies that a `Cargo.toml` declares.
pub fn read_cargo_deps(content: &str) -> (r: StrMap<String>)
    ensures
        r@ == cargo_deps(content@),
{
    let ls = lines_chars(&chars_of(content));
    let ghost lv = vec_views(ls@);
    let ghost f = |st: (bool, DepsView), l: Seq<char>| cargo_step(st, l);
    let mut m: StrMap<String> = StrMap::new();
    let mut in_section = false;
    let mut i: usize = 0;
    while i < ls.len()
        invariant
            0 <= i <= ls.len(),
            lv == vec_views(ls@),
            lv == lines(content@),
            f == (|st: (bool, DepsView), l: Seq<char>| cargo_step(st, l)),
            (in_section, m@) == lv.take(i as int).fold_left((false, Map::empty()), f),
        decreases ls.len() - i,
    {
        assert(lv.take(i + 1).drop_last() =~= lv.take(i as int));
        assert(lv[i as int] == ls@[i as int]@);
        in_section = cargo_line(in_section, &mut m, &ls[i]);
        i = i + 1;
    }
    assert(lv.take(ls.len() as int) =~= lv);
    m
}

/// Apply one `"name": "version"` piece.
fn json_pair(m: &mut StrMap<String>, piece: &Vec<char>)
    ensures
        final(m)@ == json_pair_step(old(m)@, piece@),
{
    let t = trim_chars(piece);
    match find_char_exec(&t, ':') {
        Some(c) => {
            proof {
                crate::text::lemma_find_from_props(t@, seq![':'], 0);
            }
            let head = sub_chars(&t, 0, c);
            let tail = sub_chars(&t, c + 1, t.len());
            assert(head@ =~= t@.take(c as int));
            assert(tail@ =~= t@.skip(c + 1));
            let name = trim_char_exec(&trim_chars(&head), '"');
            let version = trim_char_exec(&trim_chars(&tail), '"');
            if name.len() > 0 {
                m.insert(string_of(&name), string_of(&version));
            }
        },
        None => {},
    }
}

/// Add the pairs of the `section` object of a JSON text.
pub fn parse_json_deps(content: &Vec<char>, section: &str, m: &mut StrMap<String>)
    ensures
        final(m)@ == json_section_deps(old(m)@, content@, section@),
{
    let q = vec!['"'];
    let pattern = concat_chars(&concat_chars(&q, &chars_of(section)), &q);
    assert(q@ =~= seq!['"']);
    match find_exec(content, &pattern) {
        Some(start) => {
            proof {
                crate::text::lemma_found(content@, pattern@, start as int);
            }
            assert(start + pattern@.len() <= content@.len());
            assert(start + pattern.len() <= content.len());
            let after = sub_chars(content, start + pattern.len(), content.len());
            assert(after@ =~= content@.skip(start + pattern.len()));
            match find_char_exec(&after, '{') {
                Some(b) => {
                    proof {
                        crate::text::lemma_find_from_props(after@, seq!['{'], 0);
                    }
                    let inner = sub_chars(&after, b + 1, after.len());
                    assert(inner@ =~= after@.skip(b + 1));
                    match find_char_exec(&inner, '}') {
                        Some(e) => {
                            proof {
                                crate::text::lemma_find_from_props(inner@, seq!['}'], 0);
                            }
                            let body = sub_chars(&inner, 0, e);
                            assert(body@ =~= inner@.take(e as int));
                            let pieces = split_chars(&body, ',');
                            let ghost pv = vec_views(pieces@);
                            let ghost f = |acc: DepsView, p: Seq<char>| json_pair_step(acc, p);
                            let ghost m0 = m@;
                            let mut i: usize = 0;
                            while i < pieces.len()
                                invariant
                                    0 <= i <= pieces.len(),
                                    pv == vec_views(pieces@),
                                    f == (|acc: DepsView, p: Seq<char>| json_pair_step(acc, p)),
                                    m@ == pv.take(i as int).fold_left(m0, f),
                                decreases pieces.len() - i,
                            {
                                assert(pv.take(i + 1).drop_last() =~= pv.take(i as int));
                                assert(pv[i as int] == pieces@[i as int]@);
                                json_pair(m, &pieces[i]);
                                i = i + 1;
                            }
                            assert(pv.take(pieces.len() as int) =~= pv);
                        },
                        None => {},
                    }
                },
                None => {},
            }
        },
        None => {},
    }
}

/// The dependencies, dev- and peer dependencies of a `package.json`.
pub fn read_npm_deps(content: &str) -> (r: StrMap<String>)
    ensures
        r@ == npm_deps(content@),
{
    let c = chars_of(content);
    let mut m: StrMap<String> = StrMap::new();
    parse_json_deps(&c, "dependencies", &mut m);
    parse_json_deps(&c, "devDependencies", &mut m);
    parse_json_deps(&c, "peerDependencies", &mut m);
    m
}

/// The requirements of a `composer.json`.
pub fn read_composer_deps(content: &str) -> (r: StrMap<String>)
    ensures
        r@ == composer_deps(content@),
{
    let c = chars_of(content);
    let mut m: StrMap<String> = StrMap::new();
    parse_json_deps(&c, "require", &mut m);
    parse_json_deps(&c, "require-dev", &mut m);
    m
}

/// Apply one `requirements.txt` line.
fn requirement_line(m: &mut StrMap<String>, l: &Vec<char>)
    ensures
        final(m)@ == requirement_step(old(m)@, l@),
{
    let t = trim_chars(l);
    if t.len() == 0 || t[0] == '#' {
        return ;
    }
    let eqeq = chars_of("==");
    let ge = chars_of(">=");
    let le = chars_of("<=");
    proof {
        reveal_strlit("==");
    }
    match find_exec(&t, &eqeq) {
        Some(e) => {
            proof {
                crate::text::lemma_find_from_props(t@, eqeq@, 0);
            }
            let name = sub_chars(&t, 0, e);
            let version = sub_chars(&t, e + 2, t.len());
            assert(name@ =~= t@.take(e as int));
            assert(version@ =~= t@.skip(e + 2));
            m.insert(string_of(&name), string_of(&version));
        },
        None => {
            let op = match find_exec(&t, &ge) {
                Some(g) => Some(g),
                None => find_exec(&t, &le),
            };
            match op {
                Some(g) => {
                    proof {
                        crate::text::lemma_find_from_props(t@, ge@, 0);
                        crate::text::lemma_find_from_props(t@, le@, 0);
                    }
                    let name = sub_chars(&t, 0, g);
                    let version = sub_chars(&t, g, t.len());
                    assert(name@ =~= t@.take(g as int));
                    assert(version@ =~= t@.skip(g as int));
                    m.insert(string_of(&name), string_of(&version));
                },
                None => {
                    m.insert(string_of(&t), string_of(&chars_of("*")));
                },
            }
        },
    }
}

/// Add the requirements of a `requirements.txt`.
fn read_requirements(content: &str, m: &mut StrMap<String>)
    ensures
        final(m)@ == requirements_deps(old(m)@, content@),
{
    let ls = lines_chars(&chars_of(content));
    let ghost lv = vec_views(ls@);
    let ghost f = |acc: DepsView, l: Seq<char>| requirement_step(acc, l);
    let ghost m0 = m@;
    let mut i: usize = 0;
    while i < ls.len()
        invariant
            0 <= i <= ls.len(),
            lv == vec_views(ls@),
            lv == lines(content@),
            f == (|acc: DepsView, l: Seq<char>| requirement_step(acc, l)),
            m@ == lv.take(i as int).fold_left(m0, f),
        decreases ls.len() - i,
    {
        assert(lv.take(i + 1).drop_last() =~= lv.take(i as int));
        assert(lv[i as int] == ls@[i as int]@);
        requirement_line(m, &ls[i]);
        i = i + 1;
    }
    assert(lv.take(ls.len() as int) =~= lv);
}

/// Apply one item of a `pyproject.toml` dependency array.
fn pyproject_item(m: &mut StrMap<String>, item: &Vec<char>)
    ensures
        final(m)@ == pyproject_item_step(old(m)@, item@),
{
    let it = trim_char_exec(&trim_char_exec(&trim_chars(item), '"'), '\'');
    let ops = vec!['>', '<', '=', '~'];
    assert(ops@ =~= version_ops());
    match find_any_exec(&it, &ops) {
        Some(o) => {
            proof {
                lemma_find_any_bound(it@, ops@, 0);
            }
            let name = sub_chars(&it, 0, o);
            let version = sub_chars(&it, o, it.len());
            assert(name@ =~= it@.take(o as int));
            assert(version@ =~= it@.skip(o as int));
            m.insert(string_of(&name), string_of(&version));
        },
        None => {
            if it.len() > 0 {
                m.insert(string_of(&it), string_of(&chars_of("*")));
            }
        },
    }
}

/// A character-class match lies within the string.
proof fn lemma_find_any_bound(s: Seq<char>, cs: Seq<char>, k: int)
    ensures
        k >= 0 ==> (crate::scan::find_any_from(s, cs, k) matches Some(i) ==> k <= i < s.len()),
    decreases s.len() - k,
{
    if 0 <= k < s.len() && !cs.contains(s[k]) {
        lemma_find_any_bound(s, cs, k + 1);
    }
}

/// Add the items of the `dependencies` array of a `pyproject.toml`.
fn read_pyproject(content: &str, m: &mut StrMap<String>)
    ensures
        final(m)@ == pyproject_deps(old(m)@, content@),
{
    let c = chars_of(content);
    let key = chars_of("dependencies");
    match find_exec(&c, &key) {
        Some(d) => {
            proof {
                crate::text::lemma_find_from_props(c@, key@, 0);
            }
            let after = sub_chars(&c, d, c.len());
            assert(after@ =~= c@.skip(d as int));
            match find_char_exec(&after, '[') {
                Some(b) => {
                    proof {
                        crate::text::lemma_find_from_props(after@, seq!['['], 0);
                    }
                    let inner = sub_chars(&after, b + 1, after.len());
                    assert(inner@ =~= after@.skip(b + 1));
                    match find_char_exec(&inner, ']') {
                        Some(e) => {
                            proof {
                                crate::text::lemma_find_from_props(inner@, seq![']'], 0);
                            }
                            let body = sub_chars(&inner, 0, e);
                            assert(body@ =~= inner@.take(e as int));
                            let items = split_chars(&body, ',');
                            let ghost iv = vec_views(items@);
                            let ghost f = |acc: DepsView, p: Seq<char>| pyproject_item_step(acc, p);
                            let ghost m0 = m@;
                            let mut i: usize = 0;
                            while i < items.len()
                                invariant
                                    0 <= i <= items.len(),
                                    iv == vec_views(items@),
                                    f == (|acc: DepsView, p: Seq<char>| pyproject_item_step(acc, p)),
                                    m@ == iv.take(i as int).fold_left(m0, f),
                                decreases items.len() - i,
                            {
                                assert(iv.take(i + 1).drop_last() =~= iv.take(i as int));
                                assert(iv[i as int] == items@[i as int]@);
                                pyproject_item(m, &items[i]);
                                i = i + 1;
                            }
                            assert(iv.take(items.len() as int) =~= iv);
                        },
                        None => {},
                    }
                },
                None => {},
            }
        },
        None => {},
    }
}

/// The Python dependencies of a `requirements.txt` and a `pyproject.toml`.
pub fn read_pip_deps(requirements: Option<&str>, pyproject: Option<&str>) -> (r: StrMap<String>)
    ensures
        r@ == pip_deps(
            match requirements {
                Some(c) => Some(c@),
                None => None,
            },
            match pyproject {
                Some(c) => Some(c@),
                None => None,
            },
        ),
{
    let mut m: StrMap<String> = StrMap::new();
    match requirements {
        Some(c) => read_requirements(c, &mut m),
        None => {},
    }
    match pyproject {
        Some(c) => read_pyproject(c, &mut m),
        None => {},
    }
    m
}

/// The text between `<tag>` and `</tag>` in a line.
pub fn extract_xml_value(line: &Vec<char>, tag: &str) -> (r: Option<Vec<char>>)
    ensures
        match r {
            Some(v) => xml_value(line@, tag@) == Some(v@),
            None => xml_value(line@, tag@) is None,
        },
{
    let tv = chars_of(tag);
    let open = concat_chars(&concat_chars(&vec!['<'], &tv), &vec!['>']);
    let close = concat_chars(&concat_chars(&vec!['<', '/'], &tv), &vec!['>']);
    assert(open@ =~= seq!['<'] + tag@ + seq!['>']);
    assert(close@ =~= seq!['<', '/'] + tag@ + seq!['>']);
    match find_exec(line, &open) {
        Some(s) => {
            proof {
                crate::text::lemma_found(line@, open@, s as int);
            }
            assert(s + open@.len() <= line@.len());
            assert(s + open.len() <= line.len());
            let after = sub_chars(line, s + open.len(), line.len());
            assert(after@ =~= line@.skip(s + open.len()));
            match find_exec(&after, &close) {
                Some(e) => {
                    proof {
                        crate::text::lemma_find_from_props(after@, close@, 0);
                    }
                    let v = sub_chars(&after, 0, e);
                    assert(v@ =~= after@.take(e as int));
                    Some(v)
                },
                None => None,
            }
        },
        None => None,
    }
}

/// The element value in a line, or a copy of `current`.
fn xml_value_or_exec(line: &Vec<char>, tag: &str, current: &Vec<char>) -> (r: Vec<char>)
    ensures
        r@ == xml_value_or(line@, tag@, current@),
{
    match extract_xml_value(line, tag) {
        Some(v) => v,
        None => sub_chars(current, 0, current.len()),
    }
}

/// The dependencies of a `pom.xml`.
pub fn read_maven_deps(content: &str) -> (r: StrMap<String>)
    ensures
        r@ == maven_deps(content@),
{
    let ls = lines_chars(&chars_of(content));
    let ghost lv = vec_views(ls@);
    let ghost f = |st: MavenState, l: Seq<char>| maven_step(st, l);
    let ghost init: MavenState = (false, Seq::empty(), Seq::empty(), Seq::empty(), Map::empty());
    let mut m: StrMap<String> = StrMap::new();
    let mut inside = false;
    let mut group: Vec<char> = Vec::new();
    let mut artifact: Vec<char> = Vec::new();
    let mut version: Vec<char> = Vec::new();
    let open = chars_of("<dependency>");
    let close = chars_of("</dependency>");
    let colon = chars_of(":");
    assert(lv.take(0).fold_left(init, f) == init);
    assert(group@ =~= Seq::<char>::empty());
    let mut i: usize = 0;
    while i < ls.len()
        invariant
            0 <= i <= ls.len(),
            lv == vec_views(ls@),
            lv == lines(content@),
            open@ == "<dependency>"@,
            close@ == "</dependency>"@,
            colon@ == ":"@,
            init == (false, Seq::<char>::empty(), Seq::<char>::empty(), Seq::<char>::empty(), Map::<Seq<char>, Seq<char>>::empty()),
            f == (|st: MavenState, l: Seq<char>| maven_step(st, l)),
            (inside, group@, artifact@, version@, m@) == lv.take(i as int).fold_left(init, f),
        decreases ls.len() - i,
    {
        assert(lv.take(i + 1).drop_last() =~= lv.take(i as int));
        assert(lv[i as int] == ls@[i as int]@);
        let t = trim_chars(&ls[i]);
        if find_exec(&t, &open).is_some() {
            inside = true;
            group = Vec::new();
            artifact = Vec::new();
            version = Vec::new();
            assert(group@ =~= Seq::<char>::empty());
            assert(artifact@ =~= Seq::<char>::empty());
            assert(version@ =~= Seq::<char>::empty());
        } else if find_exec(&t, &close).is_some() {
            if inside && artifact.len() > 0 {
                let name = if group.len() == 0 {
                    sub_chars(&artifact, 0, artifact.len())
                } else {
                    concat_chars(&concat_chars(&group, &colon), &artifact)
                };
                let ver = if version.len() == 0 {
                    chars_of("*")
                } else {
                    sub_chars(&version, 0, version.len())
                };
                assert(artifact@.subrange(0, artifact@.len() as int) =~= artifact@);
                assert(version@.subrange(0, version@.len() as int) =~= version@);
                m.insert(string_of(&name), string_of(&ver));
            }
            inside = false;
        } else if inside {
            let g = xml_value_or_exec(&t, "groupId", &group);
            let a = xml_value_or_exec(&t, "artifactId", &artifact);
            let v = xml_value_or_exec(&t, "version", &version);
            group = g;
            artifact = a;
            version = v;
        }
        i = i + 1;
    }
    assert(lv.take(ls.len() as int) =~= lv);
    m
}

/// The text inside the first quoted string of a Gradle line.
pub fn extract_gradle_dep(line: &Vec<char>) -> (r: Option<Vec<char>>)
    ensures
        match r {
            Some(v) => gradle_dep(line@) == Some(v@),
            None => gradle_dep(line@) is None,
        },
{
    let quotes = vec!['\'', '"'];
    assert(quotes@ =~= gradle_quotes());
    match find_any_exec(line, &quotes) {
        Some(s) => {
            proof {
                lemma_find_any_bound(line@, quotes@, 0);
            }
            let q = line[s];
            assert(s < line@.len());
            assert(s + 1 <= line.len());
            let after = sub_chars(line, s + 1, line.len());
            assert(after@ =~= line@.skip(s + 1));
            match find_char_exec(&after, q) {
                Some(e) => {
                    proof {
                        crate::text::lemma_find_from_props(after@, seq![q], 0);
                    }
                    let v = sub_chars(&after, 0, e);
                    assert(v@ =~= after@.take(e as int));
                    Some(v)
                },
                None => None,
            }
        },
        None => None,
    }
}

/// Apply one Gradle line.
fn gradle_line(m: &mut StrMap<String>, l: &Vec<char>)
    ensures
        final(m)@ == gradle_step(old(m)@, l@),
{
    let t = trim_chars(l);
    let is_config = starts_with(&t, &chars_of("implementation")) || starts_with(&t, &chars_of("api"))
        || starts_with(&t, &chars_of("compile")) || starts_with(
        &t,
        &chars_of("testImplementation"),
    );
    if !is_config {
        return ;
    }
    match extract_gradle_dep(&t) {
        Some(dep) => {
            let parts = split_chars(&dep, ':');
            assert(vec_views(parts@).len() == parts@.len());
            if parts.len() >= 2 {
                assert(vec_views(parts@)[0] == parts@[0]@);
                assert(vec_views(parts@)[1] == parts@[1]@);
                let name = concat_chars(&concat_chars(&parts[0], &chars_of(":")), &parts[1]);
                let version = if parts.len() > 2 {
                    assert(vec_views(parts@)[2] == parts@[2]@);
                    sub_chars(&parts[2], 0, parts[2].len())
                } else {
                    chars_of("*")
                };
                assert(parts@.len() > 2 ==> parts@[2]@.subrange(0, parts@[2]@.len() as int)
                    =~= parts@[2]@);
                m.insert(string_of(&name), string_of(&version));
            }
        },
        None => {},
    }
}

/// Add the dependencies of one Gradle build file.
fn read_gradle_file(content: &str, m: &mut StrMap<String>)
    ensures
        final(m)@ == gradle_file_deps(old(m)@, content@),
{
    let ls = lines_chars(&chars_of(content));
    let ghost lv = vec_views(ls@);
    let ghost f = |acc: DepsView, l: Seq<char>| gradle_step(acc, l);
    let ghost m0 = m@;
    let mut i: usize = 0;
    while i < ls.len()
        invariant
            0 <= i <= ls.len(),
            lv == vec_views(ls@),
            lv == lines(content@),
            f == (|acc: DepsView, l: Seq<char>| gradle_step(acc, l)),
            m@ == lv.take(i as int).fold_left(m0, f),
        decreases ls.len() - i,
    {
        assert(lv.take(i + 1).drop_last() =~= lv.take(i as int));
        assert(lv[i as int] == ls@[i as int]@);
        gradle_line(m, &ls[i]);
        i = i + 1;
    }
    assert(lv.take(ls.len() as int) =~= lv);
}

/// The dependencies of `build.gradle` and `build.gradle.kts`.
pub fn read_gradle_deps(groovy: Option<&str>, kotlin: Option<&str>) -> (r: StrMap<String>)
    ensures
        r@ == gradle_deps(
            match groovy {
                Some(c) => Some(c@),
                None => None,
            },
            match kotlin {
                Some(c) => Some(c@),
                None => None,
            },
        ),
{
    let mut m: StrMap<String> = StrMap::new();
    match groovy {
        Some(c) => read_gradle_file(c, &mut m),
        None => {},
    }
    match kotlin {
        Some(c) => read_gradle_file(c, &mut m),
        None => {},
    }
    m
}

/// Apply one `Gemfile` line.
fn gem_line(m: &mut StrMap<String>, l: &Vec<char>)
    ensures
        final(m)@ == gem_step(old(m)@, l@),
{
    let t = trim_chars(l);
    let prefix = chars_of("gem ");
    proof {
        reveal_strlit("gem ");
    }
    if !starts_with(&t, &prefix) {
        return ;
    }
    let rest = sub_chars(&t, 4, t.len());
    assert(rest@ =~= t@.skip(4));
    let parts = split_chars(&trim_chars(&rest), ',');
    proof {
        crate::scan::lemma_split_nonempty(trim(rest@), ',');
    }
    assert(vec_views(parts@).len() == parts@.len());
    assert(vec_views(parts@)[0] == parts@[0]@);
    let quotes = vec!['\'', '"'];
    assert(quotes@ =~= gem_quotes());
    let name = trim_set_exec(&trim_chars(&parts[0]), &quotes);
    let version = if parts.len() > 1 {
        assert(vec_views(parts@)[1] == parts@[1]@);
        trim_set_exec(&trim_chars(&parts[1]), &quotes)
    } else {
        chars_of("*")
    };
    m.insert(string_of(&name), string_of(&version));
}

/// The gems of a `Gemfile`.
pub fn read_bundler_deps(content: &str) -> (r: StrMap<String>)
    ensures
        r@ == bundler_deps(content@),
{
    let ls = lines_chars(&chars_of(content));
    let ghost lv = vec_views(ls@);
    let ghost f = |acc: DepsView, l: Seq<char>| gem_step(acc, l);
    let mut m: StrMap<String> = StrMap::new();
    let mut i: usize = 0;
    while i < ls.len()
        invariant
            0 <= i <= ls.len(),
            lv == vec_views(ls@),
            lv == lines(content@),
            f == (|acc: DepsView, l: Seq<char>| gem_step(acc, l)),
            m@ == lv.take(i as int).fold_left(Map::empty(), f),
        decreases ls.len() - i,
    {
        assert(lv.take(i + 1).drop_last() =~= lv.take(i as int));
        assert(lv[i as int] == ls@[i as int]@);
        gem_line(&mut m, &ls[i]);
        i = i + 1;
    }
    assert(lv.take(ls.len() as int) =~= lv);
    m
}

/// Apply one `go.mod` line.
fn gomod_line(in_block: bool, m: &mut StrMap<String>, l: &Vec<char>) -> (r: bool)
    ensures
        (r, final(m)@) == gomod_step((in_block, old(m)@), l@),
{
    let t = trim_chars(l);
    if chars_eq(&t, &chars_of("require (")) {
        return true;
    }
    if chars_eq(&t, &chars_of(")")) {
        return false;
    }
    let req = chars_of("require ");
    if in_block || starts_with(&t, &req) {
        let parts = split_ws_chars(&trim_start_str_exec(&t, &req));
        assert(vec_views(parts@).len() == parts@.len());
        if parts.len() >= 2 {
            assert(vec_views(parts@)[0] == parts@[0]@);
            assert(vec_views(parts@)[1] == parts@[1]@);
            m.insert(string_of(&parts[0]), string_of(&parts[1]));
        }
    }
    in_block
}

/// The requirements of a `go.mod`.
pub fn read_gomod_deps(content: &str) -> (r: StrMap<String>)
    ensures
        r@ == gomod_deps(content@),
{
    let ls = lines_chars(&chars_of(content));
    let ghost lv = vec_views(ls@);
    let ghost f = |st: (bool, DepsView), l: Seq<char>| gomod_step(st, l);
    let mut m: StrMap<String> = StrMap::new();
    let mut in_block = false;
    let mut i: usize = 0;
    while i < ls.len()
        invariant
            0 <= i <= ls.len(),
            lv == vec_views(ls@),
            lv == lines(content@),
            f == (|st: (bool, DepsView), l: Seq<char>| gomod_step(st, l)),
            (in_block, m@) == lv.take(i as int).fold_left((false, Map::empty()), f),
        decreases ls.len() - i,
    {
        assert(lv.take(i + 1).drop_last() =~= lv.take(i as int));
        assert(lv[i as int] == ls@[i as int]@);
        in_block = gomod_line(in_block, &mut m, &ls[i]);
        i = i + 1;
    }
    assert(lv.take(ls.len() as int) =~= lv);
    m
}

/// The value of the XML attribute `attr="..."` in a line.
pub fn extract_xml_attr(line: &Vec<char>, attr: &str) -> (r: Option<Vec<char>>)
    ensures
        match r {
            Some(v) => xml_attr(line@, attr@) == Some(v@),
            None => xml_attr(line@, attr@) is None,
        },
{
    let pattern = concat_chars(&chars_of(attr), &vec!['=', '"']);
    assert(pattern@ =~= attr@ + seq!['=', '"']);
    match find_exec(line, &pattern) {
        Some(s) => {
            proof {
                crate::text::lemma_found(line@, pattern@, s as int);
            }
            assert(s + pattern@.len() <= line@.len());
            assert(s + pattern.len() <= line.len());
            let after = sub_chars(line, s + pattern.len(), line.len());
            assert(after@ =~= line@.skip(s + pattern.len()));
            match find_char_exec(&after, '"') {
                Some(e) => {
                    proof {
                        crate::text::lemma_find_from_props(after@, seq!['"'], 0);
                    }
                    let v = sub_chars(&after, 0, e);
                    assert(v@ =~= after@.take(e as int));
                    Some(v)
                },
                None => None,
            }
        },
        None => None,
    }
}

/// Apply one project-file line.
fn nuget_line(m: &mut StrMap<String>, l: &Vec<char>)
    ensures
        final(m)@ == nuget_step(old(m)@, l@),
{
    if find_exec(l, &chars_of("PackageReference")).is_none() {
        return ;
    }
    let name = extract_xml_attr(l, "Include");
    let version = extract_xml_attr(l, "Version");
    match (name, version) {
        (Some(n), Some(v)) => {
            m.insert(string_of(&n), string_of(&v));
        },
        _ => {},
    }
}

/// Add the package references of one project file.
pub fn read_nuget_file(content: &str, m: &mut StrMap<String>)
    ensures
        final(m)@ == nuget_file_deps(old(m)@, content@),
{
    let ls = lines_chars(&chars_of(content));
    let ghost lv = vec_views(ls@);
    let ghost f = |acc: DepsView, l: Seq<char>| nuget_step(acc, l);
    let ghost m0 = m@;
    let mut i: usize = 0;
    while i < ls.len()
        invariant
            0 <= i <= ls.len(),
            lv == vec_views(ls@),
            lv == lines(content@),
            f == (|acc: DepsView, l: Seq<char>| nuget_step(acc, l)),
            m@ == lv.take(i as int).fold_left(m0, f),
        decreases ls.len() - i,
    {
        assert(lv.take(i + 1).drop_last() =~= lv.take(i as int));
        assert(lv[i as int] == ls@[i as int]@);
        nuget_line(m, &ls[i]);
        i = i + 1;
    }
    assert(lv.take(ls.len() as int) =~= lv);
}

} // verus!
