//! Language servers: configuration, a registry of known servers, positions
//! and edits, and rename operations.
pub mod config;
pub mod installer;
pub mod rename;
pub mod types;

use vstd::prelude::*;

use crate::pathname::{path_extension, path_extension_exec};
use crate::text::{copy_str, lowercase, str_eq, str_views, string_of, to_lowercase, views};
use config::{handles_ext, owned_strings, LspServerConfig};

verus! {

/// What a server configuration says, as text.
#[verifier::ext_equal]
pub struct ServerSpec {
    pub name: Seq<char>,
    pub command: Seq<char>,
    pub args: Seq<Seq<char>>,
    pub extensions: Seq<Seq<char>>,
    pub root_markers: Seq<Seq<char>>,
}

/// The text of a server configuration.
pub open spec fn server_spec(c: LspServerConfig) -> ServerSpec {
    ServerSpec {
        name: c.name@,
        command: c.command@,
        args: views(c.args@),
        extensions: views(c.extensions@),
        root_markers: views(c.root_markers@),
    }
}

/// The servers that a new registry knows: name, command, arguments,
/// extensions and root markers.
pub open spec fn default_servers() -> Seq<ServerSpec> {
    seq![
        ServerSpec { name: "rust-analyzer"@, command: "rust-analyzer"@, args: Seq::empty(), extensions: seq!["rs"@], root_markers: seq!["Cargo.toml"@, "rust-project.json"@] },
        ServerSpec { name: "typescript-language-server"@, command: "typescript-language-server"@, args: seq!["--stdio"@], extensions: seq!["ts"@, "tsx"@, "js"@, "jsx"@], root_markers: seq!["tsconfig.json"@, "jsconfig.json"@, "package.json"@] },
        ServerSpec { name: "pyright"@, command: "pyright-langserver"@, args: seq!["--stdio"@], extensions: seq!["py"@, "pyi"@], root_markers: seq!["pyproject.toml"@, "setup.py"@, "pyrightconfig.json"@] },
        ServerSpec { name: "gopls"@, command: "gopls"@, args: seq!["serve"@], extensions: seq!["go"@], root_markers: seq!["go.mod"@, "go.work"@] },
        ServerSpec { name: "clangd"@, command: "clangd"@, args: Seq::empty(), extensions: seq!["c"@, "h"@, "cpp"@, "hpp"@, "cc"@, "cxx"@], root_markers: seq!["compile_commands.json"@, "CMakeLists.txt"@, ".clangd"@] },
        ServerSpec { name: "jdtls"@, command: "jdtls"@, args: Seq::empty(), extensions: seq!["java"@], root_markers: seq!["pom.xml"@, "build.gradle"@, "build.gradle.kts"@, ".project"@] },
        ServerSpec { name: "omnisharp"@, command: "omnisharp"@, args: seq!["--languageserver"@], extensions: seq!["cs"@, "csx"@], root_markers: seq!["*.sln"@, "*.csproj"@, "omnisharp.json"@] },
        ServerSpec { name: "solargraph"@, command: "solargraph"@, args: seq!["stdio"@], extensions: seq!["rb"@, "rake"@, "gemspec"@], root_markers: seq!["Gemfile"@, ".solargraph.yml"@] },
    ]
}

/// A server configuration made of the given texts.
fn make_server(name: &str, command: &str, args: Vec<&str>, exts: Vec<&str>, markers: Vec<&str>) -> (r: LspServerConfig)
    ensures
        server_spec(r) == (ServerSpec {
            name: name@,
            command: command@,
            args: str_views(args@),
            extensions: str_views(exts@),
            root_markers: str_views(markers@),
        }),
{
    LspServerConfig {
        name: copy_str(name),
        command: copy_str(command),
        args: owned_strings(args.as_slice()),
        extensions: owned_strings(exts.as_slice()),
        root_markers: owned_strings(markers.as_slice()),
    }
}

/// The first server of the list that handles `ext`.
pub open spec fn first_handling(servers: Seq<LspServerConfig>, ext: Seq<char>) -> Option<int> {
    if exists|i: int| 0 <= i < servers.len() && handles_ext(servers[i], ext) {
        Some(
            choose|i: int|
                0 <= i < servers.len() && handles_ext(servers[i], ext) && forall|j: int|
                    0 <= j < i ==> !handles_ext(#[trigger] servers[j], ext),
        )
    } else {
        None
    }
}

/// Registry of known LSP servers, searched in registration order.
#[derive(Debug)]
pub struct LspRegistry {
    servers: Vec<LspServerConfig>,
}

impl LspRegistry {
    /// The registered servers.
    pub closed spec fn servers_spec(&self) -> Seq<LspServerConfig> {
        self.servers@
    }

    /// Creates a new registry with the default servers.
    pub fn new() -> (r: Self)
        ensures
            r.servers_spec().map_values(|c: LspServerConfig| server_spec(c)) == default_servers(),
    {
        let mut registry = LspRegistry { servers: Vec::new() };
        registry.register_defaults();
        registry
    }

    /// Creates an empty registry.
    pub fn empty() -> (r: Self)
        ensures
            r.servers_spec().len() == 0,
    {
        LspRegistry { servers: Vec::new() }
    }

    /// Registers the default servers.
    fn register_defaults(&mut self)
        requires
            old(self).servers@.len() == 0,
        ensures
            final(self).servers@.map_values(|c: LspServerConfig| server_spec(c)) == default_servers(),
    {
        let c0 = make_server("rust-analyzer", "rust-analyzer", Vec::<&str>::new(), vec!["rs"], vec!["Cargo.toml", "rust-project.json"]);
        assert(server_spec(c0) =~= default_servers()[0]);
        self.register(c0);
        let c1 = make_server("typescript-language-server", "typescript-language-server", vec!["--stdio"], vec!["ts", "tsx", "js", "jsx"], vec!["tsconfig.json", "jsconfig.json", "package.json"]);
        assert(server_spec(c1) =~= default_servers()[1]);
        self.register(c1);
        let c2 = make_server("pyright", "pyright-langserver", vec!["--stdio"], vec!["py", "pyi"], vec!["pyproject.toml", "setup.py", "pyrightconfig.json"]);
        assert(server_spec(c2) =~= default_servers()[2]);
        self.register(c2);
        let c3 = make_server("gopls", "gopls", vec!["serve"], vec!["go"], vec!["go.mod", "go.work"]);
        assert(server_spec(c3) =~= default_servers()[3]);
        self.register(c3);
        let c4 = make_server("clangd", "clangd", Vec::<&str>::new(), vec!["c", "h", "cpp", "hpp", "cc", "cxx"], vec!["compile_commands.json", "CMakeLists.txt", ".clangd"]);
        assert(server_spec(c4) =~= default_servers()[4]);
        self.register(c4);
        let c5 = make_server("jdtls", "jdtls", Vec::<&str>::new(), vec!["java"], vec!["pom.xml", "build.gradle", "build.gradle.kts", ".project"]);
        assert(server_spec(c5) =~= default_servers()[5]);
        self.register(c5);
        let c6 = make_server("omnisharp", "omnisharp", vec!["--languageserver"], vec!["cs", "csx"], vec!["*.sln", "*.csproj", "omnisharp.json"]);
        assert(server_spec(c6) =~= default_servers()[6]);
        self.register(c6);
        let c7 = make_server("solargraph", "solargraph", vec!["stdio"], vec!["rb", "rake", "gemspec"], vec!["Gemfile", ".solargraph.yml"]);
        assert(server_spec(c7) =~= default_servers()[7]);
        self.register(c7);
        assert(self.servers@.map_values(|c: LspServerConfig| server_spec(c)) =~= default_servers());
    }

    /// Registers a server configuration, after the others.
    pub fn register(&mut self, config: LspServerConfig)
        ensures
            final(self).servers_spec() == old(self).servers_spec().push(config),
    {
        self.servers.push(config);
    }

    /// Finds the first server that handles an extension, ignoring ASCII case.
    pub fn find_by_extension(&self, ext: &str) -> (r: Option<&LspServerConfig>)
        ensures
            match r {
                Some(c) => exists|i: int|
                    first_handling(self.servers_spec(), ext@) == Some(i) && *c
                        == self.servers_spec()[i],
                None => first_handling(self.servers_spec(), ext@) is None,
            },
    {
        let mut i: usize = 0;
        while i < self.servers.len()
            invariant
                0 <= i <= self.servers.len(),
                forall|j: int| 0 <= j < i ==> !handles_ext(#[trigger] self.servers@[j], ext@),
            decreases self.servers.len() - i,
        {
            if self.servers[i].handles_extension(ext) {
                proof {
                    let w = choose|k: int|
                        0 <= k < self.servers@.len() && handles_ext(self.servers@[k], ext@)
                            && forall|j: int|
                            0 <= j < k ==> !handles_ext(#[trigger] self.servers@[j], ext@);
                    assert(w == i) by {
                        if w < i {
                        } else if w > i {
                            assert(!handles_ext(self.servers@[i as int], ext@));
                        }
                    }
                }
                return Some(&self.servers[i]);
            }
            i = i + 1;
        }
        None
    }

    /// Finds the server for a file by its path's extension.
    pub fn find_for_file(&self, path: &str) -> (r: Option<&LspServerConfig>)
        ensures
            match path_extension(path@) {
                Some(e) => match r {
                    Some(c) => exists|i: int|
                        first_handling(self.servers_spec(), e) == Some(i) && *c
                            == self.servers_spec()[i],
                    None => first_handling(self.servers_spec(), e) is None,
                },
                None => r is None,
            },
    {
        match path_extension_exec(path) {
            Some(ext) => {
                let e = crate::text::string_of(&ext);
                self.find_by_extension(e.as_str())
            },
            None => None,
        }
    }

    /// Returns all registered servers.
    pub fn all(&self) -> (r: &Vec<LspServerConfig>)
        ensures
            r@ == self.servers_spec(),
    {
        &self.servers
    }
}

/// The language identifier a server knows a lower-case extension by, for
/// the extensions that have one of their own.
pub open spec fn known_language_id(e: Seq<char>) -> Option<Seq<char>> {
    if e == "rs"@ {
        Some("rust"@)
    } else if e == "ts"@ || e == "tsx"@ {
        Some("typescript"@)
    } else if e == "js"@ || e == "jsx"@ {
        Some("javascript"@)
    } else if e == "py"@ {
        Some("python"@)
    } else if e == "go"@ {
        Some("go"@)
    } else if e == "c"@ || e == "h"@ {
        Some("c"@)
    } else if e == "cpp"@ || e == "cc"@ || e == "cxx"@ || e == "hpp"@ {
        Some("cpp"@)
    } else if e == "java"@ {
        Some("java"@)
    } else if e == "rb"@ {
        Some("ruby"@)
    } else {
        None
    }
}

/// The language identifier of a document: that of its extension (ignoring
/// case) where one is known, else the extension itself, and `plaintext` for
/// a file without extension.
pub open spec fn language_id_spec(path: Seq<char>) -> Seq<char> {
    match path_extension(path) {
        Some(e) => match known_language_id(lowercase(e)) {
            Some(id) => id,
            None => e,
        },
        None => "plaintext"@,
    }
}

/// The language identifier sent with a document that is opened on a server.
pub fn detect_language_id(path: &str) -> (r: String)
    ensures
        r@ == language_id_spec(path@),
{
    let ext = match path_extension_exec(path) {
        Some(e) => string_of(&e),
        None => return copy_str("plaintext"),
    };
    let lower = to_lowercase(ext.as_str());
    let l = lower.as_str();
    let id = if str_eq(l, "rs") {
        "rust"
    } else if str_eq(l, "ts") || str_eq(l, "tsx") {
        "typescript"
    } else if str_eq(l, "js") || str_eq(l, "jsx") {
        "javascript"
    } else if str_eq(l, "py") {
        "python"
    } else if str_eq(l, "go") {
        "go"
    } else if str_eq(l, "c") || str_eq(l, "h") {
        "c"
    } else if str_eq(l, "cpp") || str_eq(l, "cc") || str_eq(l, "cxx") || str_eq(l, "hpp") {
        "cpp"
    } else if str_eq(l, "java") {
        "java"
    } else if str_eq(l, "rb") {
        "ruby"
    } else {
        return ext;
    };
    copy_str(id)
}

} // verus!
