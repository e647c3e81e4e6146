//! Programming languages: names, extensions and kinds.
use vstd::prelude::*;

use crate::text::{
    ascii_lower, ascii_lowercase, eq_ignore_ascii_case, is_ascii_text, lemma_text_lt_irreflexive,
    lemma_text_lt_transitive, lowercase, str_eq, str_views, text_lt_from, to_lowercase,
};

verus! {

/// Programming languages for detection.
#[derive(Debug, Clone, Copy, PartialEq, Eq, Hash, Structural)]
pub enum ProgrammingLanguage {
    Rust,
    Python,
    JavaScript,
    TypeScript,
    Go,
    Java,
    Kotlin,
    Scala,
    CSharp,
    FSharp,
    Ruby,
    PHP,
    C,
    Cpp,
    Swift,
    ObjectiveC,
    Dart,
    Elixir,
    Erlang,
    Haskell,
    Clojure,
    Lua,
    R,
    Julia,
    Shell,
    PowerShell,
    Perl,
    Vim,
    HTML,
    CSS,
    SCSS,
    SQL,
    Markdown,
    YAML,
    JSON,
    TOML,
    XML,
    Other,
}

/// The display name of a language.
pub open spec fn language_name(l: ProgrammingLanguage) -> Seq<char> {
    match l {
        ProgrammingLanguage::Rust => "Rust"@,
        ProgrammingLanguage::Python => "Python"@,
        ProgrammingLanguage::JavaScript => "JavaScript"@,
        ProgrammingLanguage::TypeScript => "TypeScript"@,
        ProgrammingLanguage::Go => "Go"@,
        ProgrammingLanguage::Java => "Java"@,
        ProgrammingLanguage::Kotlin => "Kotlin"@,
        ProgrammingLanguage::Scala => "Scala"@,
        ProgrammingLanguage::CSharp => "C#"@,
        ProgrammingLanguage::FSharp => "F#"@,
        ProgrammingLanguage::Ruby => "Ruby"@,
        ProgrammingLanguage::PHP => "PHP"@,
        ProgrammingLanguage::C => "C"@,
        ProgrammingLanguage::Cpp => "C++"@,
        ProgrammingLanguage::Swift => "Swift"@,
        ProgrammingLanguage::ObjectiveC => "Objective-C"@,
        ProgrammingLanguage::Dart => "Dart"@,
        ProgrammingLanguage::Elixir => "Elixir"@,
        ProgrammingLanguage::Erlang => "Erlang"@,
        ProgrammingLanguage::Haskell => "Haskell"@,
        ProgrammingLanguage::Clojure => "Clojure"@,
        ProgrammingLanguage::Lua => "Lua"@,
        ProgrammingLanguage::R => "R"@,
        ProgrammingLanguage::Julia => "Julia"@,
        ProgrammingLanguage::Shell => "Shell"@,
        ProgrammingLanguage::PowerShell => "PowerShell"@,
        ProgrammingLanguage::Perl => "Perl"@,
        ProgrammingLanguage::Vim => "Vim script"@,
        ProgrammingLanguage::HTML => "HTML"@,
        ProgrammingLanguage::CSS => "CSS"@,
        ProgrammingLanguage::SCSS => "SCSS"@,
        ProgrammingLanguage::SQL => "SQL"@,
        ProgrammingLanguage::Markdown => "Markdown"@,
        ProgrammingLanguage::YAML => "YAML"@,
        ProgrammingLanguage::JSON => "JSON"@,
        ProgrammingLanguage::TOML => "TOML"@,
        ProgrammingLanguage::XML => "XML"@,
        ProgrammingLanguage::Other => "Other"@,
    }
}

/// The file extensions of a language.
pub open spec fn language_extensions(l: ProgrammingLanguage) -> Seq<Seq<char>> {
    match l {
        ProgrammingLanguage::Rust => seq!["rs"@],
        ProgrammingLanguage::Python => seq!["py"@, "pyi"@, "pyw"@],
        ProgrammingLanguage::JavaScript => seq!["js"@, "mjs"@, "cjs"@, "jsx"@],
        ProgrammingLanguage::TypeScript => seq!["ts"@, "tsx"@, "mts"@, "cts"@],
        ProgrammingLanguage::Go => seq!["go"@],
        ProgrammingLanguage::Java => seq!["java"@],
        ProgrammingLanguage::Kotlin => seq!["kt"@, "kts"@],
        ProgrammingLanguage::Scala => seq!["scala"@, "sc"@],
        ProgrammingLanguage::CSharp => seq!["cs"@],
        ProgrammingLanguage::FSharp => seq!["fs"@, "fsi"@, "fsx"@],
        ProgrammingLanguage::Ruby => seq!["rb"@, "rake"@, "gemspec"@],
        ProgrammingLanguage::PHP => seq!["php"@, "phtml"@],
        ProgrammingLanguage::C => seq!["c"@, "h"@],
        ProgrammingLanguage::Cpp => seq!["cpp"@, "cc"@, "cxx"@, "hpp"@, "hxx"@, "hh"@],
        ProgrammingLanguage::Swift => seq!["swift"@],
        ProgrammingLanguage::ObjectiveC => seq!["m"@, "mm"@],
        ProgrammingLanguage::Dart => seq!["dart"@],
        ProgrammingLanguage::Elixir => seq!["ex"@, "exs"@],
        ProgrammingLanguage::Erlang => seq!["erl"@, "hrl"@],
        ProgrammingLanguage::Haskell => seq!["hs"@, "lhs"@],
        ProgrammingLanguage::Clojure => seq!["clj"@, "cljs"@, "cljc"@, "edn"@],
        ProgrammingLanguage::Lua => seq!["lua"@],
        ProgrammingLanguage::R => seq!["r"@, "R"@],
        ProgrammingLanguage::Julia => seq!["jl"@],
        ProgrammingLanguage::Shell => seq!["sh"@, "bash"@, "zsh"@, "fish"@],
        ProgrammingLanguage::PowerShell => seq!["ps1"@, "psm1"@, "psd1"@],
        ProgrammingLanguage::Perl => seq!["pl"@, "pm"@],
        ProgrammingLanguage::Vim => seq!["vim"@],
        ProgrammingLanguage::HTML => seq!["html"@, "htm"@],
        ProgrammingLanguage::CSS => seq!["css"@],
        ProgrammingLanguage::SCSS => seq!["scss"@, "sass"@, "less"@],
        ProgrammingLanguage::SQL => seq!["sql"@],
        ProgrammingLanguage::Markdown => seq!["md"@, "markdown"@],
        ProgrammingLanguage::YAML => seq!["yml"@, "yaml"@],
        ProgrammingLanguage::JSON => seq!["json"@],
        ProgrammingLanguage::TOML => seq!["toml"@],
        ProgrammingLanguage::XML => seq!["xml"@, "xsl"@, "xslt"@],
        ProgrammingLanguage::Other => Seq::empty(),
    }
}

/// The language is compiled.
pub open spec fn is_compiled_spec(l: ProgrammingLanguage) -> bool {
    match l {
        ProgrammingLanguage::Rust
        | ProgrammingLanguage::Go
        | ProgrammingLanguage::Java
        | ProgrammingLanguage::Kotlin
        | ProgrammingLanguage::Scala
        | ProgrammingLanguage::CSharp
        | ProgrammingLanguage::FSharp
        | ProgrammingLanguage::C
        | ProgrammingLanguage::Cpp
        | ProgrammingLanguage::Swift
        | ProgrammingLanguage::ObjectiveC
        | ProgrammingLanguage::Dart
        | ProgrammingLanguage::Haskell
        | ProgrammingLanguage::Erlang => true,
        _ => false,
    }
}

/// The language is interpreted.
pub open spec fn is_interpreted_spec(l: ProgrammingLanguage) -> bool {
    match l {
        ProgrammingLanguage::Python
        | ProgrammingLanguage::JavaScript
        | ProgrammingLanguage::TypeScript
        | ProgrammingLanguage::Ruby
        | ProgrammingLanguage::PHP
        | ProgrammingLanguage::Lua
        | ProgrammingLanguage::R
        | ProgrammingLanguage::Julia
        | ProgrammingLanguage::Shell
        | ProgrammingLanguage::PowerShell
        | ProgrammingLanguage::Perl => true,
        _ => false,
    }
}

/// The language is markup or data.
pub open spec fn is_markup_spec(l: ProgrammingLanguage) -> bool {
    match l {
        ProgrammingLanguage::HTML
        | ProgrammingLanguage::CSS
        | ProgrammingLanguage::SCSS
        | ProgrammingLanguage::Markdown
        | ProgrammingLanguage::YAML
        | ProgrammingLanguage::JSON
        | ProgrammingLanguage::TOML
        | ProgrammingLanguage::XML => true,
        _ => false,
    }
}

/// The languages that detection knows, in order.
pub open spec fn all_languages() -> Seq<ProgrammingLanguage> {
    seq![
        ProgrammingLanguage::Rust,
        ProgrammingLanguage::Python,
        ProgrammingLanguage::JavaScript,
        ProgrammingLanguage::TypeScript,
        ProgrammingLanguage::Go,
        ProgrammingLanguage::Java,
        ProgrammingLanguage::Kotlin,
        ProgrammingLanguage::Scala,
        ProgrammingLanguage::CSharp,
        ProgrammingLanguage::FSharp,
        ProgrammingLanguage::Ruby,
        ProgrammingLanguage::PHP,
        ProgrammingLanguage::C,
        ProgrammingLanguage::Cpp,
        ProgrammingLanguage::Swift,
        ProgrammingLanguage::ObjectiveC,
        ProgrammingLanguage::Dart,
        ProgrammingLanguage::Elixir,
        ProgrammingLanguage::Erlang,
        ProgrammingLanguage::Haskell,
        ProgrammingLanguage::Clojure,
        ProgrammingLanguage::Lua,
        ProgrammingLanguage::R,
        ProgrammingLanguage::Julia,
        ProgrammingLanguage::Shell,
        ProgrammingLanguage::PowerShell,
        ProgrammingLanguage::Perl,
        ProgrammingLanguage::Vim,
        ProgrammingLanguage::HTML,
        ProgrammingLanguage::CSS,
        ProgrammingLanguage::SCSS,
        ProgrammingLanguage::SQL,
        ProgrammingLanguage::Markdown,
        ProgrammingLanguage::YAML,
        ProgrammingLanguage::JSON,
        ProgrammingLanguage::TOML,
        ProgrammingLanguage::XML,
    ]
}


/// The first language among `langs` that has the extension `ext`.
pub open spec fn first_with_extension(langs: Seq<ProgrammingLanguage>, ext: Seq<char>) -> Option<ProgrammingLanguage>
    decreases langs.len(),
{
    if langs.len() == 0 {
        None
    } else if language_extensions(langs[0]).contains(ext) {
        Some(langs[0])
    } else {
        first_with_extension(langs.drop_first(), ext)
    }
}

/// The language of an already lower-cased extension: the first known
/// language that lists it, or `Other`.
pub open spec fn language_of_lower_extension(ext: Seq<char>) -> ProgrammingLanguage {
    match first_with_extension(all_languages(), ext) {
        Some(l) => l,
        None => ProgrammingLanguage::Other,
    }
}

/// Law: `Other` claims no extension, and every known language claims at
/// least one.
pub proof fn law_known_languages_claim_extensions()
    ensures
        language_extensions(ProgrammingLanguage::Other).len() == 0,
        forall|i: int| 0 <= i < all_languages().len() ==> language_extensions(#[trigger] all_languages()[i]).len() > 0,
{
}

/// Every extension of a known language, in code-point order.
spec fn sorted_extensions() -> Seq<Seq<char>> {
    seq![
        "R"@,
        "bash"@,
        "c"@,
        "cc"@,
        "cjs"@,
        "clj"@,
        "cljc"@,
        "cljs"@,
        "cpp"@,
        "cs"@,
        "css"@,
        "cts"@,
        "cxx"@,
        "dart"@,
        "edn"@,
        "erl"@,
        "ex"@,
        "exs"@,
        "fish"@,
        "fs"@,
        "fsi"@,
        "fsx"@,
        "gemspec"@,
        "go"@,
        "h"@,
        "hh"@,
        "hpp"@,
        "hrl"@,
        "hs"@,
        "htm"@,
        "html"@,
        "hxx"@,
        "java"@,
        "jl"@,
        "js"@,
        "json"@,
        "jsx"@,
        "kt"@,
        "kts"@,
        "less"@,
        "lhs"@,
        "lua"@,
        "m"@,
        "markdown"@,
        "md"@,
        "mjs"@,
        "mm"@,
        "mts"@,
        "php"@,
        "phtml"@,
        "pl"@,
        "pm"@,
        "ps1"@,
        "psd1"@,
        "psm1"@,
        "py"@,
        "pyi"@,
        "pyw"@,
        "r"@,
        "rake"@,
        "rb"@,
        "rs"@,
        "sass"@,
        "sc"@,
        "scala"@,
        "scss"@,
        "sh"@,
        "sql"@,
        "swift"@,
        "toml"@,
        "ts"@,
        "tsx"@,
        "vim"@,
        "xml"@,
        "xsl"@,
        "xslt"@,
        "yaml"@,
        "yml"@,
        "zsh"@
    ]
}

/// The language of each extension in `sorted_extensions`.
spec fn extension_owners() -> Seq<ProgrammingLanguage> {
    seq![
        ProgrammingLanguage::R,
        ProgrammingLanguage::Shell,
        ProgrammingLanguage::C,
        ProgrammingLanguage::Cpp,
        ProgrammingLanguage::JavaScript,
        ProgrammingLanguage::Clojure,
        ProgrammingLanguage::Clojure,
        ProgrammingLanguage::Clojure,
        ProgrammingLanguage::Cpp,
        ProgrammingLanguage::CSharp,
        ProgrammingLanguage::CSS,
        ProgrammingLanguage::TypeScript,
        ProgrammingLanguage::Cpp,
        ProgrammingLanguage::Dart,
        ProgrammingLanguage::Clojure,
        ProgrammingLanguage::Erlang,
        ProgrammingLanguage::Elixir,
        ProgrammingLanguage::Elixir,
        ProgrammingLanguage::Shell,
        ProgrammingLanguage::FSharp,
        ProgrammingLanguage::FSharp,
        ProgrammingLanguage::FSharp,
        ProgrammingLanguage::Ruby,
        ProgrammingLanguage::Go,
        ProgrammingLanguage::C,
        ProgrammingLanguage::Cpp,
        ProgrammingLanguage::Cpp,
        ProgrammingLanguage::Erlang,
        ProgrammingLanguage::Haskell,
        ProgrammingLanguage::HTML,
        ProgrammingLanguage::HTML,
        ProgrammingLanguage::Cpp,
        ProgrammingLanguage::Java,
        ProgrammingLanguage::Julia,
        ProgrammingLanguage::JavaScript,
        ProgrammingLanguage::JSON,
        ProgrammingLanguage::JavaScript,
        ProgrammingLanguage::Kotlin,
        ProgrammingLanguage::Kotlin,
        ProgrammingLanguage::SCSS,
        ProgrammingLanguage::Haskell,
        ProgrammingLanguage::Lua,
        ProgrammingLanguage::ObjectiveC,
        ProgrammingLanguage::Markdown,
        ProgrammingLanguage::Markdown,
        ProgrammingLanguage::JavaScript,
        ProgrammingLanguage::ObjectiveC,
        ProgrammingLanguage::TypeScript,
        ProgrammingLanguage::PHP,
        ProgrammingLanguage::PHP,
        ProgrammingLanguage::Perl,
        ProgrammingLanguage::Perl,
        ProgrammingLanguage::PowerShell,
        ProgrammingLanguage::PowerShell,
        ProgrammingLanguage::PowerShell,
        ProgrammingLanguage::Python,
        ProgrammingLanguage::Python,
        ProgrammingLanguage::Python,
        ProgrammingLanguage::R,
        ProgrammingLanguage::Ruby,
        ProgrammingLanguage::Ruby,
        ProgrammingLanguage::Rust,
        ProgrammingLanguage::SCSS,
        ProgrammingLanguage::Scala,
        ProgrammingLanguage::Scala,
        ProgrammingLanguage::SCSS,
        ProgrammingLanguage::Shell,
        ProgrammingLanguage::SQL,
        ProgrammingLanguage::Swift,
        ProgrammingLanguage::TOML,
        ProgrammingLanguage::TypeScript,
        ProgrammingLanguage::TypeScript,
        ProgrammingLanguage::Vim,
        ProgrammingLanguage::XML,
        ProgrammingLanguage::XML,
        ProgrammingLanguage::XML,
        ProgrammingLanguage::YAML,
        ProgrammingLanguage::YAML,
        ProgrammingLanguage::Shell
    ]
}

/// Each text from position `k` on comes before the next.
spec fn increasing_from(s: Seq<Seq<char>>, k: int) -> bool
    decreases s.len() - k,
{
    k < 0 || k + 1 >= s.len() || (text_lt_from(s[k], s[k + 1], 0) && increasing_from(s, k + 1))
}

/// The sorted extensions are in strictly increasing order.
proof fn lemma_sorted_extensions_increase()
    ensures
        increasing_from(sorted_extensions(), 0),
{
    reveal_strlit("R");
    reveal_strlit("bash");
    reveal_strlit("c");
    reveal_strlit("cc");
    reveal_strlit("cjs");
    reveal_strlit("clj");
    reveal_strlit("cljc");
    reveal_strlit("cljs");
    reveal_strlit("cpp");
    reveal_strlit("cs");
    reveal_strlit("css");
    reveal_strlit("cts");
    reveal_strlit("cxx");
    reveal_strlit("dart");
    reveal_strlit("edn");
    reveal_strlit("erl");
    reveal_strlit("ex");
    reveal_strlit("exs");
    reveal_strlit("fish");
    reveal_strlit("fs");
    reveal_strlit("fsi");
    reveal_strlit("fsx");
    reveal_strlit("gemspec");
    reveal_strlit("go");
    reveal_strlit("h");
    reveal_strlit("hh");
    reveal_strlit("hpp");
    reveal_strlit("hrl");
    reveal_strlit("hs");
    reveal_strlit("htm");
    reveal_strlit("html");
    reveal_strlit("hxx");
    reveal_strlit("java");
    reveal_strlit("jl");
    reveal_strlit("js");
    reveal_strlit("json");
    reveal_strlit("jsx");
    reveal_strlit("kt");
    reveal_strlit("kts");
    reveal_strlit("less");
    reveal_strlit("lhs");
    reveal_strlit("lua");
    reveal_strlit("m");
    reveal_strlit("markdown");
    reveal_strlit("md");
    reveal_strlit("mjs");
    reveal_strlit("mm");
    reveal_strlit("mts");
    reveal_strlit("php");
    reveal_strlit("phtml");
    reveal_strlit("pl");
    reveal_strlit("pm");
    reveal_strlit("ps1");
    reveal_strlit("psd1");
    reveal_strlit("psm1");
    reveal_strlit("py");
    reveal_strlit("pyi");
    reveal_strlit("pyw");
    reveal_strlit("r");
    reveal_strlit("rake");
    reveal_strlit("rb");
    reveal_strlit("rs");
    reveal_strlit("sass");
    reveal_strlit("sc");
    reveal_strlit("scala");
    reveal_strlit("scss");
    reveal_strlit("sh");
    reveal_strlit("sql");
    reveal_strlit("swift");
    reveal_strlit("toml");
    reveal_strlit("ts");
    reveal_strlit("tsx");
    reveal_strlit("vim");
    reveal_strlit("xml");
    reveal_strlit("xsl");
    reveal_strlit("xslt");
    reveal_strlit("yaml");
    reveal_strlit("yml");
    reveal_strlit("zsh");
    reveal_with_fuel(increasing_from, 81);
    reveal_with_fuel(text_lt_from, 6);
}

/// In a strictly increasing list, an earlier text comes before a later one.
proof fn lemma_increasing_ordered(s: Seq<Seq<char>>, k: int, i: int, j: int)
    requires
        0 <= k <= i < j < s.len(),
        increasing_from(s, k),
    ensures
        text_lt_from(s[i], s[j], 0),
    decreases j - k,
{
    if k < i {
        lemma_increasing_ordered(s, k + 1, i, j);
    } else if j > i + 1 {
        lemma_increasing_ordered(s, k + 1, i + 1, j);
        lemma_text_lt_transitive(s[i], s[i + 1], s[j], 0);
    }
}

/// Each extension a language claims stands in the sorted list with that
/// language.
proof fn lemma_extension_listed(l: ProgrammingLanguage, e: Seq<char>)
    requires
        language_extensions(l).contains(e),
    ensures
        exists|k: int| 0 <= k < sorted_extensions().len() && sorted_extensions()[k] == e && #[trigger] extension_owners()[k] == l,
{
    match l {
        ProgrammingLanguage::Rust => {
            if e == "rs"@ {
                assert(sorted_extensions()[61] == e && extension_owners()[61] == l);
            }
        },
        ProgrammingLanguage::Python => {
            if e == "py"@ {
                assert(sorted_extensions()[55] == e && extension_owners()[55] == l);
            }
            if e == "pyi"@ {
                assert(sorted_extensions()[56] == e && extension_owners()[56] == l);
            }
            if e == "pyw"@ {
                assert(sorted_extensions()[57] == e && extension_owners()[57] == l);
            }
        },
        ProgrammingLanguage::JavaScript => {
            if e == "js"@ {
                assert(sorted_extensions()[34] == e && extension_owners()[34] == l);
            }
            if e == "mjs"@ {
                assert(sorted_extensions()[45] == e && extension_owners()[45] == l);
            }
            if e == "cjs"@ {
                assert(sorted_extensions()[4] == e && extension_owners()[4] == l);
            }
            if e == "jsx"@ {
                assert(sorted_extensions()[36] == e && extension_owners()[36] == l);
            }
        },
        ProgrammingLanguage::TypeScript => {
            if e == "ts"@ {
                assert(sorted_extensions()[70] == e && extension_owners()[70] == l);
            }
            if e == "tsx"@ {
                assert(sorted_extensions()[71] == e && extension_owners()[71] == l);
            }
            if e == "mts"@ {
                assert(sorted_extensions()[47] == e && extension_owners()[47] == l);
            }
            if e == "cts"@ {
                assert(sorted_extensions()[11] == e && extension_owners()[11] == l);
            }
        },
        ProgrammingLanguage::Go => {
            if e == "go"@ {
                assert(sorted_extensions()[23] == e && extension_owners()[23] == l);
            }
        },
        ProgrammingLanguage::Java => {
            if e == "java"@ {
                assert(sorted_extensions()[32] == e && extension_owners()[32] == l);
            }
        },
        ProgrammingLanguage::Kotlin => {
            if e == "kt"@ {
                assert(sorted_extensions()[37] == e && extension_owners()[37] == l);
            }
            if e == "kts"@ {
                assert(sorted_extensions()[38] == e && extension_owners()[38] == l);
            }
        },
        ProgrammingLanguage::Scala => {
            if e == "scala"@ {
                assert(sorted_extensions()[64] == e && extension_owners()[64] == l);
            }
            if e == "sc"@ {
                assert(sorted_extensions()[63] == e && extension_owners()[63] == l);
            }
        },
        ProgrammingLanguage::CSharp => {
            if e == "cs"@ {
                assert(sorted_extensions()[9] == e && extension_owners()[9] == l);
            }
        },
        ProgrammingLanguage::FSharp => {
            if e == "fs"@ {
                assert(sorted_extensions()[19] == e && extension_owners()[19] == l);
            }
            if e == "fsi"@ {
                assert(sorted_extensions()[20] == e && extension_owners()[20] == l);
            }
            if e == "fsx"@ {
                assert(sorted_extensions()[21] == e && extension_owners()[21] == l);
            }
        },
        ProgrammingLanguage::Ruby => {
            if e == "rb"@ {
                assert(sorted_extensions()[60] == e && extension_owners()[60] == l);
            }
            if e == "rake"@ {
                assert(sorted_extensions()[59] == e && extension_owners()[59] == l);
            }
            if e == "gemspec"@ {
                assert(sorted_extensions()[22] == e && extension_owners()[22] == l);
            }
        },
        ProgrammingLanguage::PHP => {
            if e == "php"@ {
                assert(sorted_extensions()[48] == e && extension_owners()[48] == l);
            }
            if e == "phtml"@ {
                assert(sorted_extensions()[49] == e && extension_owners()[49] == l);
            }
        },
        ProgrammingLanguage::C => {
            if e == "c"@ {
                assert(sorted_extensions()[2] == e && extension_owners()[2] == l);
            }
            if e == "h"@ {
                assert(sorted_extensions()[24] == e && extension_owners()[24] == l);
            }
        },
        ProgrammingLanguage::Cpp => {
            if e == "cpp"@ {
                assert(sorted_extensions()[8] == e && extension_owners()[8] == l);
            }
            if e == "cc"@ {
                assert(sorted_extensions()[3] == e && extension_owners()[3] == l);
            }
            if e == "cxx"@ {
                assert(sorted_extensions()[12] == e && extension_owners()[12] == l);
            }
            if e == "hpp"@ {
                assert(sorted_extensions()[26] == e && extension_owners()[26] == l);
            }
            if e == "hxx"@ {
                assert(sorted_extensions()[31] == e && extension_owners()[31] == l);
            }
            if e == "hh"@ {
                assert(sorted_extensions()[25] == e && extension_owners()[25] == l);
            }
        },
        ProgrammingLanguage::Swift => {
            if e == "swift"@ {
                assert(sorted_extensions()[68] == e && extension_owners()[68] == l);
            }
        },
        ProgrammingLanguage::ObjectiveC => {
            if e == "m"@ {
                assert(sorted_extensions()[42] == e && extension_owners()[42] == l);
            }
            if e == "mm"@ {
                assert(sorted_extensions()[46] == e && extension_owners()[46] == l);
            }
        },
        ProgrammingLanguage::Dart => {
            if e == "dart"@ {
                assert(sorted_extensions()[13] == e && extension_owners()[13] == l);
            }
        },
        ProgrammingLanguage::Elixir => {
            if e == "ex"@ {
                assert(sorted_extensions()[16] == e && extension_owners()[16] == l);
            }
            if e == "exs"@ {
                assert(sorted_extensions()[17] == e && extension_owners()[17] == l);
            }
        },
        ProgrammingLanguage::Erlang => {
            if e == "erl"@ {
                assert(sorted_extensions()[15] == e && extension_owners()[15] == l);
            }
            if e == "hrl"@ {
                assert(sorted_extensions()[27] == e && extension_owners()[27] == l);
            }
        },
        ProgrammingLanguage::Haskell => {
            if e == "hs"@ {
                assert(sorted_extensions()[28] == e && extension_owners()[28] == l);
            }
            if e == "lhs"@ {
                assert(sorted_extensions()[40] == e && extension_owners()[40] == l);
            }
        },
        ProgrammingLanguage::Clojure => {
            if e == "clj"@ {
                assert(sorted_extensions()[5] == e && extension_owners()[5] == l);
            }
            if e == "cljs"@ {
                assert(sorted_extensions()[7] == e && extension_owners()[7] == l);
            }
            if e == "cljc"@ {
                assert(sorted_extensions()[6] == e && extension_owners()[6] == l);
            }
            if e == "edn"@ {
                assert(sorted_extensions()[14] == e && extension_owners()[14] == l);
            }
        },
        ProgrammingLanguage::Lua => {
            if e == "lua"@ {
                assert(sorted_extensions()[41] == e && extension_owners()[41] == l);
            }
        },
        ProgrammingLanguage::R => {
            if e == "r"@ {
                assert(sorted_extensions()[58] == e && extension_owners()[58] == l);
            }
            if e == "R"@ {
                assert(sorted_extensions()[0] == e && extension_owners()[0] == l);
            }
        },
        ProgrammingLanguage::Julia => {
            if e == "jl"@ {
                assert(sorted_extensions()[33] == e && extension_owners()[33] == l);
            }
        },
        ProgrammingLanguage::Shell => {
            if e == "sh"@ {
                assert(sorted_extensions()[66] == e && extension_owners()[66] == l);
            }
            if e == "bash"@ {
                assert(sorted_extensions()[1] == e && extension_owners()[1] == l);
            }
            if e == "zsh"@ {
                assert(sorted_extensions()[78] == e && extension_owners()[78] == l);
            }
            if e == "fish"@ {
                assert(sorted_extensions()[18] == e && extension_owners()[18] == l);
            }
        },
        ProgrammingLanguage::PowerShell => {
            if e == "ps1"@ {
                assert(sorted_extensions()[52] == e && extension_owners()[52] == l);
            }
            if e == "psm1"@ {
                assert(sorted_extensions()[54] == e && extension_owners()[54] == l);
            }
            if e == "psd1"@ {
                assert(sorted_extensions()[53] == e && extension_owners()[53] == l);
            }
        },
        ProgrammingLanguage::Perl => {
            if e == "pl"@ {
                assert(sorted_extensions()[50] == e && extension_owners()[50] == l);
            }
            if e == "pm"@ {
                assert(sorted_extensions()[51] == e && extension_owners()[51] == l);
            }
        },
        ProgrammingLanguage::Vim => {
            if e == "vim"@ {
                assert(sorted_extensions()[72] == e && extension_owners()[72] == l);
            }
        },
        ProgrammingLanguage::HTML => {
            if e == "html"@ {
                assert(sorted_extensions()[30] == e && extension_owners()[30] == l);
            }
            if e == "htm"@ {
                assert(sorted_extensions()[29] == e && extension_owners()[29] == l);
            }
        },
        ProgrammingLanguage::CSS => {
            if e == "css"@ {
                assert(sorted_extensions()[10] == e && extension_owners()[10] == l);
            }
        },
        ProgrammingLanguage::SCSS => {
            if e == "scss"@ {
                assert(sorted_extensions()[65] == e && extension_owners()[65] == l);
            }
            if e == "sass"@ {
                assert(sorted_extensions()[62] == e && extension_owners()[62] == l);
            }
            if e == "less"@ {
                assert(sorted_extensions()[39] == e && extension_owners()[39] == l);
            }
        },
        ProgrammingLanguage::SQL => {
            if e == "sql"@ {
                assert(sorted_extensions()[67] == e && extension_owners()[67] == l);
            }
        },
        ProgrammingLanguage::Markdown => {
            if e == "md"@ {
                assert(sorted_extensions()[44] == e && extension_owners()[44] == l);
            }
            if e == "markdown"@ {
                assert(sorted_extensions()[43] == e && extension_owners()[43] == l);
            }
        },
        ProgrammingLanguage::YAML => {
            if e == "yml"@ {
                assert(sorted_extensions()[77] == e && extension_owners()[77] == l);
            }
            if e == "yaml"@ {
                assert(sorted_extensions()[76] == e && extension_owners()[76] == l);
            }
        },
        ProgrammingLanguage::JSON => {
            if e == "json"@ {
                assert(sorted_extensions()[35] == e && extension_owners()[35] == l);
            }
        },
        ProgrammingLanguage::TOML => {
            if e == "toml"@ {
                assert(sorted_extensions()[69] == e && extension_owners()[69] == l);
            }
        },
        ProgrammingLanguage::XML => {
            if e == "xml"@ {
                assert(sorted_extensions()[73] == e && extension_owners()[73] == l);
            }
            if e == "xsl"@ {
                assert(sorted_extensions()[74] == e && extension_owners()[74] == l);
            }
            if e == "xslt"@ {
                assert(sorted_extensions()[75] == e && extension_owners()[75] == l);
            }
        },
        ProgrammingLanguage::Other => {},
    }
}

/// Law: no extension is claimed by two languages.
pub proof fn law_extension_claimed_once(l1: ProgrammingLanguage, l2: ProgrammingLanguage, e: Seq<char>)
    requires
        language_extensions(l1).contains(e),
        language_extensions(l2).contains(e),
    ensures
        l1 == l2,
{
    lemma_extension_listed(l1, e);
    lemma_extension_listed(l2, e);
    let k1 = choose|k: int| 0 <= k < sorted_extensions().len() && sorted_extensions()[k] == e && #[trigger] extension_owners()[k] == l1;
    let k2 = choose|k: int| 0 <= k < sorted_extensions().len() && sorted_extensions()[k] == e && #[trigger] extension_owners()[k] == l2;
    if k1 != k2 {
        lemma_sorted_extensions_increase();
        lemma_text_lt_irreflexive(e, 0);
        if k1 < k2 {
            lemma_increasing_ordered(sorted_extensions(), 0, k1, k2);
        } else {
            lemma_increasing_ordered(sorted_extensions(), 0, k2, k1);
        }
    }
}

/// The first language of a list with an extension is the one language of
/// the list that claims it.
proof fn lemma_first_with_only(langs: Seq<ProgrammingLanguage>, e: Seq<char>, l: ProgrammingLanguage)
    requires
        langs.contains(l),
        language_extensions(l).contains(e),
    ensures
        first_with_extension(langs, e) == Some(l),
    decreases langs.len(),
{
    if language_extensions(langs[0]).contains(e) {
        law_extension_claimed_once(langs[0], l, e);
    } else {
        assert(langs.drop_first().contains(l)) by {
            let i = choose|i: int| 0 <= i < langs.len() && langs[i] == l;
            assert(langs.drop_first()[i - 1] == l);
        }
        lemma_first_with_only(langs.drop_first(), e, l);
    }
}

/// Law: an extension that a language claims is detected as that language.
pub proof fn law_extension_detects_its_language(l: ProgrammingLanguage, e: Seq<char>)
    requires
        language_extensions(l).contains(e),
    ensures
        language_of_lower_extension(e) == l,
{
    match l {
        ProgrammingLanguage::Rust => assert(all_languages()[0] == l),
        ProgrammingLanguage::Python => assert(all_languages()[1] == l),
        ProgrammingLanguage::JavaScript => assert(all_languages()[2] == l),
        ProgrammingLanguage::TypeScript => assert(all_languages()[3] == l),
        ProgrammingLanguage::Go => assert(all_languages()[4] == l),
        ProgrammingLanguage::Java => assert(all_languages()[5] == l),
        ProgrammingLanguage::Kotlin => assert(all_languages()[6] == l),
        ProgrammingLanguage::Scala => assert(all_languages()[7] == l),
        ProgrammingLanguage::CSharp => assert(all_languages()[8] == l),
        ProgrammingLanguage::FSharp => assert(all_languages()[9] == l),
        ProgrammingLanguage::Ruby => assert(all_languages()[10] == l),
        ProgrammingLanguage::PHP => assert(all_languages()[11] == l),
        ProgrammingLanguage::C => assert(all_languages()[12] == l),
        ProgrammingLanguage::Cpp => assert(all_languages()[13] == l),
        ProgrammingLanguage::Swift => assert(all_languages()[14] == l),
        ProgrammingLanguage::ObjectiveC => assert(all_languages()[15] == l),
        ProgrammingLanguage::Dart => assert(all_languages()[16] == l),
        ProgrammingLanguage::Elixir => assert(all_languages()[17] == l),
        ProgrammingLanguage::Erlang => assert(all_languages()[18] == l),
        ProgrammingLanguage::Haskell => assert(all_languages()[19] == l),
        ProgrammingLanguage::Clojure => assert(all_languages()[20] == l),
        ProgrammingLanguage::Lua => assert(all_languages()[21] == l),
        ProgrammingLanguage::R => assert(all_languages()[22] == l),
        ProgrammingLanguage::Julia => assert(all_languages()[23] == l),
        ProgrammingLanguage::Shell => assert(all_languages()[24] == l),
        ProgrammingLanguage::PowerShell => assert(all_languages()[25] == l),
        ProgrammingLanguage::Perl => assert(all_languages()[26] == l),
        ProgrammingLanguage::Vim => assert(all_languages()[27] == l),
        ProgrammingLanguage::HTML => assert(all_languages()[28] == l),
        ProgrammingLanguage::CSS => assert(all_languages()[29] == l),
        ProgrammingLanguage::SCSS => assert(all_languages()[30] == l),
        ProgrammingLanguage::SQL => assert(all_languages()[31] == l),
        ProgrammingLanguage::Markdown => assert(all_languages()[32] == l),
        ProgrammingLanguage::YAML => assert(all_languages()[33] == l),
        ProgrammingLanguage::JSON => assert(all_languages()[34] == l),
        ProgrammingLanguage::TOML => assert(all_languages()[35] == l),
        ProgrammingLanguage::XML => assert(all_languages()[36] == l),
        ProgrammingLanguage::Other => {},
    }
    lemma_first_with_only(all_languages(), e, l);
}

/// The text from position `k` on is ASCII with no uppercase letter.
spec fn lower_ascii_from(e: Seq<char>, k: int) -> bool
    decreases e.len() - k,
{
    k < 0 || k >= e.len() || ((e[k] as u32) < 128 && !('A' <= e[k] && e[k] <= 'Z') && lower_ascii_from(e, k + 1))
}

/// Each character of a lower-case ASCII text is ASCII and not uppercase.
proof fn lemma_lower_ascii_chars(e: Seq<char>, k: int)
    requires
        0 <= k,
        lower_ascii_from(e, k),
    ensures
        forall|i: int| k <= i < e.len() ==> (#[trigger] e[i] as u32) < 128 && !('A' <= e[i] && e[i] <= 'Z'),
    decreases e.len() - k,
{
    if k < e.len() {
        lemma_lower_ascii_chars(e, k + 1);
    }
}

/// Every extension a language claims is lower-case ASCII, except R's `R`.
proof fn lemma_extensions_lower(l: ProgrammingLanguage, e: Seq<char>)
    requires
        language_extensions(l).contains(e),
    ensures
        e == "R"@ || lower_ascii_from(e, 0),
{
    reveal_strlit("rs");
    reveal_strlit("py");
    reveal_strlit("pyi");
    reveal_strlit("pyw");
    reveal_strlit("js");
    reveal_strlit("mjs");
    reveal_strlit("cjs");
    reveal_strlit("jsx");
    reveal_strlit("ts");
    reveal_strlit("tsx");
    reveal_strlit("mts");
    reveal_strlit("cts");
    reveal_strlit("go");
    reveal_strlit("java");
    reveal_strlit("kt");
    reveal_strlit("kts");
    reveal_strlit("scala");
    reveal_strlit("sc");
    reveal_strlit("cs");
    reveal_strlit("fs");
    reveal_strlit("fsi");
    reveal_strlit("fsx");
    reveal_strlit("rb");
    reveal_strlit("rake");
    reveal_strlit("gemspec");
    reveal_strlit("php");
    reveal_strlit("phtml");
    reveal_strlit("c");
    reveal_strlit("h");
    reveal_strlit("cpp");
    reveal_strlit("cc");
    reveal_strlit("cxx");
    reveal_strlit("hpp");
    reveal_strlit("hxx");
    reveal_strlit("hh");
    reveal_strlit("swift");
    reveal_strlit("m");
    reveal_strlit("mm");
    reveal_strlit("dart");
    reveal_strlit("ex");
    reveal_strlit("exs");
    reveal_strlit("erl");
    reveal_strlit("hrl");
    reveal_strlit("hs");
    reveal_strlit("lhs");
    reveal_strlit("clj");
    reveal_strlit("cljs");
    reveal_strlit("cljc");
    reveal_strlit("edn");
    reveal_strlit("lua");
    reveal_strlit("r");
    reveal_strlit("R");
    reveal_strlit("jl");
    reveal_strlit("sh");
    reveal_strlit("bash");
    reveal_strlit("zsh");
    reveal_strlit("fish");
    reveal_strlit("ps1");
    reveal_strlit("psm1");
    reveal_strlit("psd1");
    reveal_strlit("pl");
    reveal_strlit("pm");
    reveal_strlit("vim");
    reveal_strlit("html");
    reveal_strlit("htm");
    reveal_strlit("css");
    reveal_strlit("scss");
    reveal_strlit("sass");
    reveal_strlit("less");
    reveal_strlit("sql");
    reveal_strlit("md");
    reveal_strlit("markdown");
    reveal_strlit("yml");
    reveal_strlit("yaml");
    reveal_strlit("json");
    reveal_strlit("toml");
    reveal_strlit("xml");
    reveal_strlit("xsl");
    reveal_strlit("xslt");
    reveal_with_fuel(lower_ascii_from, 10);
    match l {
        ProgrammingLanguage::Rust => {
            if e == "rs"@ {
                assert(lower_ascii_from("rs"@, 0));
            }
        },
        ProgrammingLanguage::Python => {
            if e == "py"@ {
                assert(lower_ascii_from("py"@, 0));
            }
            if e == "pyi"@ {
                assert(lower_ascii_from("pyi"@, 0));
            }
            if e == "pyw"@ {
                assert(lower_ascii_from("pyw"@, 0));
            }
        },
        ProgrammingLanguage::JavaScript => {
            if e == "js"@ {
                assert(lower_ascii_from("js"@, 0));
            }
            if e == "mjs"@ {
                assert(lower_ascii_from("mjs"@, 0));
            }
            if e == "cjs"@ {
                assert(lower_ascii_from("cjs"@, 0));
            }
            if e == "jsx"@ {
                assert(lower_ascii_from("jsx"@, 0));
            }
        },
        ProgrammingLanguage::TypeScript => {
            if e == "ts"@ {
                assert(lower_ascii_from("ts"@, 0));
            }
            if e == "tsx"@ {
                assert(lower_ascii_from("tsx"@, 0));
            }
            if e == "mts"@ {
                assert(lower_ascii_from("mts"@, 0));
            }
            if e == "cts"@ {
                assert(lower_ascii_from("cts"@, 0));
            }
        },
        ProgrammingLanguage::Go => {
            if e == "go"@ {
                assert(lower_ascii_from("go"@, 0));
            }
        },
        ProgrammingLanguage::Java => {
            if e == "java"@ {
                assert(lower_ascii_from("java"@, 0));
            }
        },
        ProgrammingLanguage::Kotlin => {
            if e == "kt"@ {
                assert(lower_ascii_from("kt"@, 0));
            }
            if e == "kts"@ {
                assert(lower_ascii_from("kts"@, 0));
            }
        },
        ProgrammingLanguage::Scala => {
            if e == "scala"@ {
                assert(lower_ascii_from("scala"@, 0));
            }
            if e == "sc"@ {
                assert(lower_ascii_from("sc"@, 0));
            }
        },
        ProgrammingLanguage::CSharp => {
            if e == "cs"@ {
                assert(lower_ascii_from("cs"@, 0));
            }
        },
        ProgrammingLanguage::FSharp => {
            if e == "fs"@ {
                assert(lower_ascii_from("fs"@, 0));
            }
            if e == "fsi"@ {
                assert(lower_ascii_from("fsi"@, 0));
            }
            if e == "fsx"@ {
                assert(lower_ascii_from("fsx"@, 0));
            }
        },
        ProgrammingLanguage::Ruby => {
            if e == "rb"@ {
                assert(lower_ascii_from("rb"@, 0));
            }
            if e == "rake"@ {
                assert(lower_ascii_from("rake"@, 0));
            }
            if e == "gemspec"@ {
                assert(lower_ascii_from("gemspec"@, 0));
            }
        },
        ProgrammingLanguage::PHP => {
            if e == "php"@ {
                assert(lower_ascii_from("php"@, 0));
            }
            if e == "phtml"@ {
                assert(lower_ascii_from("phtml"@, 0));
            }
        },
        ProgrammingLanguage::C => {
            if e == "c"@ {
                assert(lower_ascii_from("c"@, 0));
            }
            if e == "h"@ {
                assert(lower_ascii_from("h"@, 0));
            }
        },
        ProgrammingLanguage::Cpp => {
            if e == "cpp"@ {
                assert(lower_ascii_from("cpp"@, 0));
            }
            if e == "cc"@ {
                assert(lower_ascii_from("cc"@, 0));
            }
            if e == "cxx"@ {
                assert(lower_ascii_from("cxx"@, 0));
            }
            if e == "hpp"@ {
                assert(lower_ascii_from("hpp"@, 0));
            }
            if e == "hxx"@ {
                assert(lower_ascii_from("hxx"@, 0));
            }
            if e == "hh"@ {
                assert(lower_ascii_from("hh"@, 0));
            }
        },
        ProgrammingLanguage::Swift => {
            if e == "swift"@ {
                assert(lower_ascii_from("swift"@, 0));
            }
        },
        ProgrammingLanguage::ObjectiveC => {
            if e == "m"@ {
                assert(lower_ascii_from("m"@, 0));
            }
            if e == "mm"@ {
                assert(lower_ascii_from("mm"@, 0));
            }
        },
        ProgrammingLanguage::Dart => {
            if e == "dart"@ {
                assert(lower_ascii_from("dart"@, 0));
            }
        },
        ProgrammingLanguage::Elixir => {
            if e == "ex"@ {
                assert(lower_ascii_from("ex"@, 0));
            }
            if e == "exs"@ {
                assert(lower_ascii_from("exs"@, 0));
            }
        },
        ProgrammingLanguage::Erlang => {
            if e == "erl"@ {
                assert(lower_ascii_from("erl"@, 0));
            }
            if e == "hrl"@ {
                assert(lower_ascii_from("hrl"@, 0));
            }
        },
        ProgrammingLanguage::Haskell => {
            if e == "hs"@ {
                assert(lower_ascii_from("hs"@, 0));
            }
            if e == "lhs"@ {
                assert(lower_ascii_from("lhs"@, 0));
            }
        },
        ProgrammingLanguage::Clojure => {
            if e == "clj"@ {
                assert(lower_ascii_from("clj"@, 0));
            }
            if e == "cljs"@ {
                assert(lower_ascii_from("cljs"@, 0));
            }
            if e == "cljc"@ {
                assert(lower_ascii_from("cljc"@, 0));
            }
            if e == "edn"@ {
                assert(lower_ascii_from("edn"@, 0));
            }
        },
        ProgrammingLanguage::Lua => {
            if e == "lua"@ {
                assert(lower_ascii_from("lua"@, 0));
            }
        },
        ProgrammingLanguage::R => {
            if e == "r"@ {
                assert(lower_ascii_from("r"@, 0));
            }
            if e == "R"@ {
                assert(e == "R"@);
            }
        },
        ProgrammingLanguage::Julia => {
            if e == "jl"@ {
                assert(lower_ascii_from("jl"@, 0));
            }
        },
        ProgrammingLanguage::Shell => {
            if e == "sh"@ {
                assert(lower_ascii_from("sh"@, 0));
            }
            if e == "bash"@ {
                assert(lower_ascii_from("bash"@, 0));
            }
            if e == "zsh"@ {
                assert(lower_ascii_from("zsh"@, 0));
            }
            if e == "fish"@ {
                assert(lower_ascii_from("fish"@, 0));
            }
        },
        ProgrammingLanguage::PowerShell => {
            if e == "ps1"@ {
                assert(lower_ascii_from("ps1"@, 0));
            }
            if e == "psm1"@ {
                assert(lower_ascii_from("psm1"@, 0));
            }
            if e == "psd1"@ {
                assert(lower_ascii_from("psd1"@, 0));
            }
        },
        ProgrammingLanguage::Perl => {
            if e == "pl"@ {
                assert(lower_ascii_from("pl"@, 0));
            }
            if e == "pm"@ {
                assert(lower_ascii_from("pm"@, 0));
            }
        },
        ProgrammingLanguage::Vim => {
            if e == "vim"@ {
                assert(lower_ascii_from("vim"@, 0));
            }
        },
        ProgrammingLanguage::HTML => {
            if e == "html"@ {
                assert(lower_ascii_from("html"@, 0));
            }
            if e == "htm"@ {
                assert(lower_ascii_from("htm"@, 0));
            }
        },
        ProgrammingLanguage::CSS => {
            if e == "css"@ {
                assert(lower_ascii_from("css"@, 0));
            }
        },
        ProgrammingLanguage::SCSS => {
            if e == "scss"@ {
                assert(lower_ascii_from("scss"@, 0));
            }
            if e == "sass"@ {
                assert(lower_ascii_from("sass"@, 0));
            }
            if e == "less"@ {
                assert(lower_ascii_from("less"@, 0));
            }
        },
        ProgrammingLanguage::SQL => {
            if e == "sql"@ {
                assert(lower_ascii_from("sql"@, 0));
            }
        },
        ProgrammingLanguage::Markdown => {
            if e == "md"@ {
                assert(lower_ascii_from("md"@, 0));
            }
            if e == "markdown"@ {
                assert(lower_ascii_from("markdown"@, 0));
            }
        },
        ProgrammingLanguage::YAML => {
            if e == "yml"@ {
                assert(lower_ascii_from("yml"@, 0));
            }
            if e == "yaml"@ {
                assert(lower_ascii_from("yaml"@, 0));
            }
        },
        ProgrammingLanguage::JSON => {
            if e == "json"@ {
                assert(lower_ascii_from("json"@, 0));
            }
        },
        ProgrammingLanguage::TOML => {
            if e == "toml"@ {
                assert(lower_ascii_from("toml"@, 0));
            }
        },
        ProgrammingLanguage::XML => {
            if e == "xml"@ {
                assert(lower_ascii_from("xml"@, 0));
            }
            if e == "xsl"@ {
                assert(lower_ascii_from("xsl"@, 0));
            }
            if e == "xslt"@ {
                assert(lower_ascii_from("xslt"@, 0));
            }
        },
        ProgrammingLanguage::Other => {},
    }
}

/// R claims both `r` and `R`.
proof fn lemma_r_claims_both()
    ensures
        language_extensions(ProgrammingLanguage::R).contains("r"@),
        language_extensions(ProgrammingLanguage::R).contains("R"@),
{
    assert(language_extensions(ProgrammingLanguage::R)[0] == "r"@);
    assert(language_extensions(ProgrammingLanguage::R)[1] == "R"@);
}

/// An extension that a language claims, lower-cased, is one it claims.
proof fn lemma_lowered_claimed(l: ProgrammingLanguage, e: Seq<char>)
    requires
        language_extensions(l).contains(e),
    ensures
        is_ascii_text(e),
        language_extensions(l).contains(ascii_lowercase(e)),
{
    lemma_extensions_lower(l, e);
    reveal_strlit("R");
    reveal_strlit("r");
    if e == "R"@ {
        lemma_r_claims_both();
        law_extension_claimed_once(l, ProgrammingLanguage::R, e);
        assert(ascii_lowercase(e) =~= "r"@);
    } else {
        lemma_lower_ascii_chars(e, 0);
        assert(ascii_lowercase(e) =~= e);
    }
}

/// Law: no two languages claim extensions that are equal ignoring ASCII
/// case.
pub proof fn law_extension_claimed_once_ignoring_case(
    l1: ProgrammingLanguage,
    l2: ProgrammingLanguage,
    e1: Seq<char>,
    e2: Seq<char>,
)
    requires
        language_extensions(l1).contains(e1),
        language_extensions(l2).contains(e2),
        eq_ignore_ascii_case(e1, e2),
    ensures
        l1 == l2,
{
    lemma_lowered_claimed(l1, e1);
    lemma_lowered_claimed(l2, e2);
    assert(ascii_lowercase(e1) =~= ascii_lowercase(e2));
    law_extension_claimed_once(l1, l2, ascii_lowercase(e1));
}

/// Law: every extension a language claims is ASCII, and detection by its
/// ASCII lower-casing (what `from_extension` does on ASCII text), or by that
/// of any text equal to it ignoring ASCII case, finds that language.
pub proof fn law_extension_detected_ignoring_case(l: ProgrammingLanguage, e: Seq<char>, text: Seq<char>)
    requires
        language_extensions(l).contains(e),
        eq_ignore_ascii_case(e, text),
    ensures
        is_ascii_text(e),
        language_of_lower_extension(ascii_lowercase(text)) == l,
{
    lemma_lowered_claimed(l, e);
    assert(ascii_lowercase(text) =~= ascii_lowercase(e));
    law_extension_detects_its_language(l, ascii_lowercase(e));
}

impl ProgrammingLanguage {
    /// Get the language name.
    pub fn name(&self) -> (r: &'static str)
        ensures
            r@ == language_name(*self),
    {
        match self {
            ProgrammingLanguage::Rust => "Rust",
            ProgrammingLanguage::Python => "Python",
            ProgrammingLanguage::JavaScript => "JavaScript",
            ProgrammingLanguage::TypeScript => "TypeScript",
            ProgrammingLanguage::Go => "Go",
            ProgrammingLanguage::Java => "Java",
            ProgrammingLanguage::Kotlin => "Kotlin",
            ProgrammingLanguage::Scala => "Scala",
            ProgrammingLanguage::CSharp => "C#",
            ProgrammingLanguage::FSharp => "F#",
            ProgrammingLanguage::Ruby => "Ruby",
            ProgrammingLanguage::PHP => "PHP",
            ProgrammingLanguage::C => "C",
            ProgrammingLanguage::Cpp => "C++",
            ProgrammingLanguage::Swift => "Swift",
            ProgrammingLanguage::ObjectiveC => "Objective-C",
            ProgrammingLanguage::Dart => "Dart",
            ProgrammingLanguage::Elixir => "Elixir",
            ProgrammingLanguage::Erlang => "Erlang",
            ProgrammingLanguage::Haskell => "Haskell",
            ProgrammingLanguage::Clojure => "Clojure",
            ProgrammingLanguage::Lua => "Lua",
            ProgrammingLanguage::R => "R",
            ProgrammingLanguage::Julia => "Julia",
            ProgrammingLanguage::Shell => "Shell",
            ProgrammingLanguage::PowerShell => "PowerShell",
            ProgrammingLanguage::Perl => "Perl",
            ProgrammingLanguage::Vim => "Vim script",
            ProgrammingLanguage::HTML => "HTML",
            ProgrammingLanguage::CSS => "CSS",
            ProgrammingLanguage::SCSS => "SCSS",
            ProgrammingLanguage::SQL => "SQL",
            ProgrammingLanguage::Markdown => "Markdown",
            ProgrammingLanguage::YAML => "YAML",
            ProgrammingLanguage::JSON => "JSON",
            ProgrammingLanguage::TOML => "TOML",
            ProgrammingLanguage::XML => "XML",
            ProgrammingLanguage::Other => "Other",
        }
    }

    /// Get file extensions for this language.
    pub fn extensions(&self) -> (r: Vec<&'static str>)
        ensures
            str_views(r@) == language_extensions(*self),
    {
        let r = match self {
            ProgrammingLanguage::Rust => vec!["rs"],
            ProgrammingLanguage::Python => vec!["py", "pyi", "pyw"],
            ProgrammingLanguage::JavaScript => vec!["js", "mjs", "cjs", "jsx"],
            ProgrammingLanguage::TypeScript => vec!["ts", "tsx", "mts", "cts"],
            ProgrammingLanguage::Go => vec!["go"],
            ProgrammingLanguage::Java => vec!["java"],
            ProgrammingLanguage::Kotlin => vec!["kt", "kts"],
            ProgrammingLanguage::Scala => vec!["scala", "sc"],
            ProgrammingLanguage::CSharp => vec!["cs"],
            ProgrammingLanguage::FSharp => vec!["fs", "fsi", "fsx"],
            ProgrammingLanguage::Ruby => vec!["rb", "rake", "gemspec"],
            ProgrammingLanguage::PHP => vec!["php", "phtml"],
            ProgrammingLanguage::C => vec!["c", "h"],
            ProgrammingLanguage::Cpp => vec!["cpp", "cc", "cxx", "hpp", "hxx", "hh"],
            ProgrammingLanguage::Swift => vec!["swift"],
            ProgrammingLanguage::ObjectiveC => vec!["m", "mm"],
            ProgrammingLanguage::Dart => vec!["dart"],
            ProgrammingLanguage::Elixir => vec!["ex", "exs"],
            ProgrammingLanguage::Erlang => vec!["erl", "hrl"],
            ProgrammingLanguage::Haskell => vec!["hs", "lhs"],
            ProgrammingLanguage::Clojure => vec!["clj", "cljs", "cljc", "edn"],
            ProgrammingLanguage::Lua => vec!["lua"],
            ProgrammingLanguage::R => vec!["r", "R"],
            ProgrammingLanguage::Julia => vec!["jl"],
            ProgrammingLanguage::Shell => vec!["sh", "bash", "zsh", "fish"],
            ProgrammingLanguage::PowerShell => vec!["ps1", "psm1", "psd1"],
            ProgrammingLanguage::Perl => vec!["pl", "pm"],
            ProgrammingLanguage::Vim => vec!["vim"],
            ProgrammingLanguage::HTML => vec!["html", "htm"],
            ProgrammingLanguage::CSS => vec!["css"],
            ProgrammingLanguage::SCSS => vec!["scss", "sass", "less"],
            ProgrammingLanguage::SQL => vec!["sql"],
            ProgrammingLanguage::Markdown => vec!["md", "markdown"],
            ProgrammingLanguage::YAML => vec!["yml", "yaml"],
            ProgrammingLanguage::JSON => vec!["json"],
            ProgrammingLanguage::TOML => vec!["toml"],
            ProgrammingLanguage::XML => vec!["xml", "xsl", "xslt"],
            ProgrammingLanguage::Other => Vec::new(),
        };
        proof {
            assert(str_views(r@) =~= language_extensions(*self));
        }
        r
    }

    /// Check if this is a compiled language.
    pub fn is_compiled(&self) -> (r: bool)
        ensures
            r == is_compiled_spec(*self),
    {
        match self {
            ProgrammingLanguage::Rust
            | ProgrammingLanguage::Go
            | ProgrammingLanguage::Java
            | ProgrammingLanguage::Kotlin
            | ProgrammingLanguage::Scala
            | ProgrammingLanguage::CSharp
            | ProgrammingLanguage::FSharp
            | ProgrammingLanguage::C
            | ProgrammingLanguage::Cpp
            | ProgrammingLanguage::Swift
            | ProgrammingLanguage::ObjectiveC
            | ProgrammingLanguage::Dart
            | ProgrammingLanguage::Haskell
            | ProgrammingLanguage::Erlang => true,
            _ => false,
        }
    }

    /// Check if this is an interpreted language.
    pub fn is_interpreted(&self) -> (r: bool)
        ensures
            r == is_interpreted_spec(*self),
    {
        match self {
            ProgrammingLanguage::Python
            | ProgrammingLanguage::JavaScript
            | ProgrammingLanguage::TypeScript
            | ProgrammingLanguage::Ruby
            | ProgrammingLanguage::PHP
            | ProgrammingLanguage::Lua
            | ProgrammingLanguage::R
            | ProgrammingLanguage::Julia
            | ProgrammingLanguage::Shell
            | ProgrammingLanguage::PowerShell
            | ProgrammingLanguage::Perl => true,
            _ => false,
        }
    }

    /// Check if this is a markup/data language.
    pub fn is_markup(&self) -> (r: bool)
        ensures
            r == is_markup_spec(*self),
    {
        match self {
            ProgrammingLanguage::HTML
            | ProgrammingLanguage::CSS
            | ProgrammingLanguage::SCSS
            | ProgrammingLanguage::Markdown
            | ProgrammingLanguage::YAML
            | ProgrammingLanguage::JSON
            | ProgrammingLanguage::TOML
            | ProgrammingLanguage::XML => true,
            _ => false,
        }
    }

    /// Get all languages.
    pub fn all() -> (r: Vec<ProgrammingLanguage>)
        ensures
            r@ == all_languages(),
    {
        let r = vec![
            ProgrammingLanguage::Rust,
            ProgrammingLanguage::Python,
            ProgrammingLanguage::JavaScript,
            ProgrammingLanguage::TypeScript,
            ProgrammingLanguage::Go,
            ProgrammingLanguage::Java,
            ProgrammingLanguage::Kotlin,
            ProgrammingLanguage::Scala,
            ProgrammingLanguage::CSharp,
            ProgrammingLanguage::FSharp,
            ProgrammingLanguage::Ruby,
            ProgrammingLanguage::PHP,
            ProgrammingLanguage::C,
            ProgrammingLanguage::Cpp,
            ProgrammingLanguage::Swift,
            ProgrammingLanguage::ObjectiveC,
            ProgrammingLanguage::Dart,
            ProgrammingLanguage::Elixir,
            ProgrammingLanguage::Erlang,
            ProgrammingLanguage::Haskell,
            ProgrammingLanguage::Clojure,
            ProgrammingLanguage::Lua,
            ProgrammingLanguage::R,
            ProgrammingLanguage::Julia,
            ProgrammingLanguage::Shell,
            ProgrammingLanguage::PowerShell,
            ProgrammingLanguage::Perl,
            ProgrammingLanguage::Vim,
            ProgrammingLanguage::HTML,
            ProgrammingLanguage::CSS,
            ProgrammingLanguage::SCSS,
            ProgrammingLanguage::SQL,
            ProgrammingLanguage::Markdown,
            ProgrammingLanguage::YAML,
            ProgrammingLanguage::JSON,
            ProgrammingLanguage::TOML,
            ProgrammingLanguage::XML,
        ];
        proof {
            assert(r@ =~= all_languages());
        }
        r
    }
}

impl ProgrammingLanguage {
    /// Whether the language lists the extension `ext`.
    pub fn has_extension(&self, ext: &str) -> (r: bool)
        ensures
            r == language_extensions(*self).contains(ext@),
    {
        let exts = self.extensions();
        let mut i: usize = 0;
        while i < exts.len()
            invariant
                0 <= i <= exts.len(),
                str_views(exts@) == language_extensions(*self),
                forall|j: int| 0 <= j < i ==> str_views(exts@)[j] != ext@,
            decreases exts.len() - i,
        {
            assert(str_views(exts@)[i as int] == exts@[i as int]@);
            if str_eq(exts[i], ext) {
                return true;
            }
            i = i + 1;
        }
        false
    }

    /// The language of an extension that is already lower case.
    pub fn from_lowercase_extension(ext: &str) -> (r: Self)
        ensures
            r == language_of_lower_extension(ext@),
    {
        let all = Self::all();
        let mut i: usize = 0;
        assert(all@.skip(0) =~= all@);
        while i < all.len()
            invariant
                0 <= i <= all.len(),
                all@ == all_languages(),
                first_with_extension(all@, ext@) == first_with_extension(all@.skip(i as int), ext@),
            decreases all.len() - i,
        {
            assert(all@.skip(i as int).drop_first() =~= all@.skip(i + 1));
            if all[i].has_extension(ext) {
                return all[i];
            }
            i = i + 1;
        }
        ProgrammingLanguage::Other
    }

    /// Get from file extension, ignoring case.
    pub fn from_extension(ext: &str) -> (r: Self)
        ensures
            r == language_of_lower_extension(lowercase(ext@)),
            is_ascii_text(ext@) ==> r == language_of_lower_extension(ascii_lowercase(ext@)),
    {
        let lower = to_lowercase(ext);
        Self::from_lowercase_extension(lower.as_str())
    }
}

/// Whether the list holds the language.
pub fn contains_language(v: &Vec<ProgrammingLanguage>, l: ProgrammingLanguage) -> (r: bool)
    ensures
        r == v@.contains(l),
{
    let mut i: usize = 0;
    while i < v.len()
        invariant
            0 <= i <= v.len(),
            forall|j: int| 0 <= j < i ==> v@[j] != l,
        decreases v.len() - i,
    {
        if v[i] == l {
            return true;
        }
        i = i + 1;
    }
    false
}

/// The languages of a repository, each with the number of lines written in it.
pub open spec fn languages_present(counts: Seq<(ProgrammingLanguage, usize)>) -> Seq<ProgrammingLanguage> {
    counts.map_values(|e: (ProgrammingLanguage, usize)| e.0)
}

/// The primary language of a repository: the first of those with the most
/// lines, with its count; none when no line was counted.
pub open spec fn is_primary(counts: Seq<(ProgrammingLanguage, usize)>, r: Option<(ProgrammingLanguage, usize)>) -> bool {
    match r {
        None => forall|i: int| 0 <= i < counts.len() ==> #[trigger] counts[i].1 == 0,
        Some(p) => {
            &&& p.1 > 0
            &&& exists|k: int|
                0 <= k < counts.len() && #[trigger] counts[k] == p && forall|j: int| 0 <= j < k ==> #[trigger] counts[j].1 < p.1
            &&& forall|i: int| 0 <= i < counts.len() ==> #[trigger] counts[i].1 <= p.1
        },
    }
}

/// The language with the most lines (the first such), and its line count;
/// `None` when no line was counted.
pub fn primary_language(counts: &Vec<(ProgrammingLanguage, usize)>) -> (r: Option<(ProgrammingLanguage, usize)>)
    ensures
        is_primary(counts@, r),
{
    let mut best: Option<(ProgrammingLanguage, usize)> = None;
    let mut i: usize = 0;
    while i < counts.len()
        invariant
            0 <= i <= counts.len(),
            match best {
                None => forall|j: int| 0 <= j < i ==> #[trigger] counts@[j].1 == 0,
                Some(p) => {
                    &&& p.1 > 0
                    &&& exists|k: int|
                        0 <= k < i && #[trigger] counts@[k] == p && forall|j: int| 0 <= j < k ==> #[trigger] counts@[j].1 < p.1
                    &&& forall|j: int| 0 <= j < i ==> #[trigger] counts@[j].1 <= p.1
                },
            },
        decreases counts.len() - i,
    {
        let e = counts[i];
        match best {
            None => {
                if e.1 > 0 {
                    best = Some(e);
                }
            },
            Some(p) => {
                if e.1 > p.1 {
                    best = Some(e);
                }
            },
        }
        i = i + 1;
    }
    best
}

/// What a language filter asks of a repository's languages, apart from the
/// share of its primary language.
#[derive(Debug, Clone)]
pub struct LanguageRequirements {
    /// Required primary language.
    pub required_primary: Option<ProgrammingLanguage>,
    /// At least one of these must be present (when any are given).
    pub required_any: Vec<ProgrammingLanguage>,
    /// All of these must be present.
    pub required_all: Vec<ProgrammingLanguage>,
    /// None of these may be present.
    pub excluded: Vec<ProgrammingLanguage>,
}

/// Whether a repository with these languages and this primary language
/// meets the requirements.
pub open spec fn meets_requirements(
    req: LanguageRequirements,
    present: Seq<ProgrammingLanguage>,
    primary: Option<ProgrammingLanguage>,
) -> bool {
    &&& (req.required_primary matches Some(l) ==> primary == Some(l))
    &&& (req.required_any@.len() > 0 ==> exists|i: int|
        0 <= i < req.required_any@.len() && present.contains(#[trigger] req.required_any@[i]))
    &&& forall|i: int| 0 <= i < req.required_all@.len() ==> present.contains(#[trigger] req.required_all@[i])
    &&& forall|i: int| 0 <= i < req.excluded@.len() ==> !present.contains(#[trigger] req.excluded@[i])
}

impl LanguageRequirements {
    /// Requirements that every repository meets.
    pub fn new() -> (r: Self)
        ensures
            r.required_primary is None,
            r.required_any@.len() == 0,
            r.required_all@.len() == 0,
            r.excluded@.len() == 0,
    {
        LanguageRequirements {
            required_primary: None,
            required_any: Vec::new(),
            required_all: Vec::new(),
            excluded: Vec::new(),
        }
    }

    /// Whether a repository with these languages and this primary language
    /// meets the requirements.
    pub fn accepts(&self, present: &Vec<ProgrammingLanguage>, primary: Option<ProgrammingLanguage>) -> (r: bool)
        ensures
            r == meets_requirements(*self, present@, primary),
    {
        if let Some(l) = self.required_primary {
            if primary != Some(l) {
                return false;
            }
        }
        if self.required_any.len() > 0 {
            let mut found = false;
            let mut i: usize = 0;
            while i < self.required_any.len() && !found
                invariant
                    0 <= i <= self.required_any@.len(),
                    found ==> exists|j: int|
                        0 <= j < i && present@.contains(#[trigger] self.required_any@[j]),
                    !found ==> forall|j: int| 0 <= j < i ==> !present@.contains(#[trigger] self.required_any@[j]),
                decreases self.required_any.len() - i,
            {
                found = contains_language(present, self.required_any[i]);
                i = i + 1;
            }
            if !found {
                return false;
            }
        }
        let mut i: usize = 0;
        while i < self.required_all.len()
            invariant
                0 <= i <= self.required_all@.len(),
                forall|j: int| 0 <= j < i ==> present@.contains(#[trigger] self.required_all@[j]),
            decreases self.required_all.len() - i,
        {
            if !contains_language(present, self.required_all[i]) {
                return false;
            }
            i = i + 1;
        }
        let mut i: usize = 0;
        while i < self.excluded.len()
            invariant
                0 <= i <= self.excluded@.len(),
                forall|j: int| 0 <= j < i ==> !present@.contains(#[trigger] self.excluded@[j]),
            decreases self.excluded.len() - i,
        {
            if contains_language(present, self.excluded[i]) {
                return false;
            }
            i = i + 1;
        }
        true
    }
}

} // verus!
