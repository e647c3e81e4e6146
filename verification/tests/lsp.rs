use std::collections::HashMap;

use refactor_dsl::lsp::config::{LspConfig, LspServerConfig};
use refactor_dsl::lsp::installer::package::{Package, PackageSource, SourceAsset};
use refactor_dsl::lsp::installer::platform::{Arch, Os, Platform};
use refactor_dsl::lsp::installer::LspInstaller;
use refactor_dsl::lsp::rename::{find_symbol_position, LspRename};
use refactor_dsl::lsp::types::{apply_edits_to_string, position_to_offset, Position, Range, TextEdit, WorkspaceEdit};
use refactor_dsl::lsp::LspRegistry;

#[test]
fn test_registry_new_has_defaults() {
    let registry = LspRegistry::new();
    assert!(!registry.all().is_empty());
}

#[test]
fn test_registry_empty() {
    let registry = LspRegistry::empty();
    assert!(registry.all().is_empty());
}

#[test]
fn test_registry_find_rust() {
    let registry = LspRegistry::new();
    let config = registry.find_by_extension("rs");

    assert!(config.is_some());
    assert_eq!(config.unwrap().name, "rust-analyzer");
}

#[test]
fn test_registry_find_typescript() {
    let registry = LspRegistry::new();

    assert!(registry.find_by_extension("ts").is_some());
    assert!(registry.find_by_extension("tsx").is_some());
    assert!(registry.find_by_extension("js").is_some());
    assert!(registry.find_by_extension("jsx").is_some());
}

#[test]
fn test_registry_find_python() {
    let registry = LspRegistry::new();
    let config = registry.find_by_extension("py");

    assert!(config.is_some());
    assert_eq!(config.unwrap().name, "pyright");
}

#[test]
fn test_registry_find_go() {
    let registry = LspRegistry::new();
    let config = registry.find_by_extension("go");

    assert!(config.is_some());
    assert_eq!(config.unwrap().name, "gopls");
}

#[test]
fn test_registry_find_cpp() {
    let registry = LspRegistry::new();

    assert!(registry.find_by_extension("c").is_some());
    assert!(registry.find_by_extension("cpp").is_some());
    assert!(registry.find_by_extension("h").is_some());
    assert!(registry.find_by_extension("hpp").is_some());
}

#[test]
fn test_registry_find_unknown() {
    let registry = LspRegistry::new();
    assert!(registry.find_by_extension("xyz").is_none());
}

#[test]
fn test_registry_find_for_file() {
    let registry = LspRegistry::new();

    let rust_config = registry.find_for_file("src/main.rs");
    assert!(rust_config.is_some());
    assert_eq!(rust_config.unwrap().name, "rust-analyzer");

    let ts_config = registry.find_for_file("src/app.tsx");
    assert!(ts_config.is_some());
}

#[test]
fn test_registry_find_for_file_no_extension() {
    let registry = LspRegistry::new();
    let config = registry.find_for_file("Makefile");
    assert!(config.is_none());
}

#[test]
fn test_registry_register_custom() {
    let mut registry = LspRegistry::empty();
    registry.register(LspServerConfig::new("custom", "custom-lsp").extensions(&["xyz"]));

    let config = registry.find_by_extension("xyz");
    assert!(config.is_some());
    assert_eq!(config.unwrap().name, "custom");
}

#[test]
fn test_registry_case_insensitive() {
    let registry = LspRegistry::new();

    assert!(registry.find_by_extension("RS").is_some());
    assert!(registry.find_by_extension("Rs").is_some());
    assert!(registry.find_by_extension("PY").is_some());
}

#[test]
fn test_registry_find_java() {
    let registry = LspRegistry::new();
    let config = registry.find_by_extension("java");

    assert!(config.is_some());
    assert_eq!(config.unwrap().name, "jdtls");
}

#[test]
fn test_registry_find_csharp() {
    let registry = LspRegistry::new();

    let config = registry.find_by_extension("cs");
    assert!(config.is_some());
    assert_eq!(config.unwrap().name, "omnisharp");

    assert!(registry.find_by_extension("csx").is_some());
}

#[test]
fn test_registry_find_ruby() {
    let registry = LspRegistry::new();

    let config = registry.find_by_extension("rb");
    assert!(config.is_some());
    assert_eq!(config.unwrap().name, "solargraph");

    assert!(registry.find_by_extension("rake").is_some());
    assert!(registry.find_by_extension("gemspec").is_some());
}

#[test]
fn test_lsp_config_builder() {
    let config = LspConfig::new().timeout(5000).verbose();

    assert_eq!(config.timeout_ms, 5000);
    assert!(config.verbose);
}

#[test]
fn test_lsp_config_add_server() {
    let server = LspServerConfig::new("test", "test-cmd");
    let config = LspConfig::new().server(server);

    assert_eq!(config.servers.len(), 1);
    assert_eq!(config.servers[0].name, "test");
}

#[test]
fn test_server_config_builder() {
    let config = LspServerConfig::new("rust-analyzer", "rust-analyzer")
        .args(&["--verbose"])
        .extensions(&["rs"])
        .root_markers(&["Cargo.toml"]);

    assert_eq!(config.name, "rust-analyzer");
    assert_eq!(config.command, "rust-analyzer");
    assert_eq!(config.args, vec!["--verbose"]);
    assert_eq!(config.extensions, vec!["rs"]);
    assert_eq!(config.root_markers, vec!["Cargo.toml"]);
}

#[test]
fn test_server_config_arg_chaining() {
    let config = LspServerConfig::new("test", "test").arg("--stdio").arg("--verbose");

    assert_eq!(config.args, vec!["--stdio", "--verbose"]);
}

#[test]
fn test_handles_extension() {
    let config = LspServerConfig::new("test", "test").extensions(&["rs", "RS"]);

    assert!(config.handles_extension("rs"));
    assert!(config.handles_extension("RS"));
    assert!(config.handles_extension("Rs"));
    assert!(!config.handles_extension("py"));
}

#[test]
fn test_handles_extension_case_insensitive() {
    let config = LspServerConfig::new("test", "test").extensions(&["ts", "tsx"]);

    assert!(config.handles_extension("TS"));
    assert!(config.handles_extension("TSX"));
    assert!(config.handles_extension("ts"));
    assert!(config.handles_extension("tsx"));
}

fn linux_x64() -> Platform {
    Platform::new(Os::Linux, Arch::X64)
}

#[test]
fn test_installer_creation() {
    let installer = LspInstaller::new(linux_x64());
    assert!(installer.is_ok());
}

#[test]
fn mod_test_platform_detection() {
    let platform = Platform::detect("linux", "x86_64", true);
    // Should detect something
    assert!(matches!(platform.os, Os::Linux | Os::MacOS | Os::Windows));
}

#[test]
fn test_custom_install_dir() {
    let installer = LspInstaller::new(linux_x64()).unwrap().install_dir("/tmp/test-lsp");

    assert_eq!(installer.get_install_dir(), "/tmp/test-lsp");
}

#[test]
fn test_github_download_url() {
    let package = Package {
        name: "test".into(),
        description: "".into(),
        homepage: "".into(),
        licenses: vec![],
        languages: vec![],
        categories: vec![],
        source: PackageSource {
            id: "pkg:github/rust-lang/rust-analyzer@2024-01-01".into(),
            asset: vec![],
        },
        bin: HashMap::new(),
    };

    let asset = SourceAsset {
        target: "linux_x64".into(),
        file: "rust-analyzer-x86_64-unknown-linux-gnu.gz".into(),
        bin: Some("rust-analyzer".into()),
    };

    let url = package.get_download_url(&asset).unwrap();
    assert_eq!(
        url,
        "https://github.com/rust-lang/rust-analyzer/releases/download/2024-01-01/rust-analyzer-x86_64-unknown-linux-gnu.gz"
    );
}

#[test]
fn test_asset_platform_matching() {
    let package = Package {
        name: "test".into(),
        description: "".into(),
        homepage: "".into(),
        licenses: vec![],
        languages: vec![],
        categories: vec![],
        source: PackageSource {
            id: "pkg:github/test/test@v1".into(),
            asset: vec![
                SourceAsset { target: "linux_x64_gnu".into(), file: "linux.gz".into(), bin: None },
                SourceAsset { target: "darwin_arm64".into(), file: "macos-arm.gz".into(), bin: None },
            ],
        },
        bin: HashMap::new(),
    };

    let linux_x64 = Platform { os: Os::Linux, arch: Arch::X64 };
    let macos_arm = Platform { os: Os::MacOS, arch: Arch::Arm64 };

    assert!(package.get_asset_for_platform(&linux_x64).is_some());
    assert!(package.get_asset_for_platform(&macos_arm).is_some());
}

#[test]
fn platform_test_platform_detection() {
    let platform = Platform::detect("macos", "aarch64", true);
    // Should detect valid OS
    assert!(matches!(platform.os, Os::Linux | Os::MacOS | Os::Windows));
    // Should detect valid arch
    assert!(matches!(platform.arch, Arch::X64 | Arch::Arm64 | Arch::X86));
}

#[test]
fn test_target_patterns() {
    let linux_x64 = Platform::new(Os::Linux, Arch::X64);
    let patterns = linux_x64.get_target_patterns();

    assert!(patterns.iter().any(|p| p.contains("linux")));
    assert!(patterns.iter().any(|p| p.contains("x86_64") || p.contains("x64")));
}

#[test]
fn test_target_triple() {
    assert_eq!(Platform::new(Os::Linux, Arch::X64).target_triple(), "x86_64-unknown-linux-gnu");
    assert_eq!(Platform::new(Os::MacOS, Arch::Arm64).target_triple(), "aarch64-apple-darwin");
    assert_eq!(Platform::new(Os::Windows, Arch::X64).target_triple(), "x86_64-pc-windows-msvc");
}

#[test]
fn test_exe_extension() {
    assert_eq!(Platform::new(Os::Windows, Arch::X64).exe_extension(), ".exe");
    assert_eq!(Platform::new(Os::Linux, Arch::X64).exe_extension(), "");
    assert_eq!(Platform::new(Os::MacOS, Arch::Arm64).exe_extension(), "");
}

#[test]
fn test_display() {
    let platform = Platform::new(Os::Linux, Arch::X64);
    assert_eq!(platform.display(), "Linux/X64");
}

#[test]
fn test_find_symbol_position() {
    let content = "fn hello() {\n    let world = 42;\n}";

    let pos = find_symbol_position(content, "hello");
    assert_eq!(pos, Some(Position::new(0, 3)));

    let pos = find_symbol_position(content, "world");
    assert_eq!(pos, Some(Position::new(1, 8)));

    let pos = find_symbol_position(content, "notfound");
    assert_eq!(pos, None);
}

#[test]
fn test_find_symbol_whole_word() {
    let content = "let hello_world = hello;";

    // Should find standalone "hello", not "hello" in "hello_world"
    let pos = find_symbol_position(content, "hello");
    assert_eq!(pos, Some(Position::new(0, 18)));
}

#[test]
fn test_lsp_rename_builder() {
    let rename = LspRename::new("test.rs", 0, 3, "new_name").root("/project").dry_run();

    assert_eq!(rename.position.line, 0);
    assert_eq!(rename.position.character, 3);
    assert_eq!(rename.new_name, "new_name");
    assert!(rename.dry_run);
}

#[test]
fn test_position_to_offset() {
    let content = "line1\nline2\nline3";
    let lines: Vec<&str> = content.lines().collect();

    assert_eq!(position_to_offset(&lines, Position::new(0, 0)), Some(0));
    assert_eq!(position_to_offset(&lines, Position::new(0, 3)), Some(3));
    assert_eq!(position_to_offset(&lines, Position::new(1, 0)), Some(6));
    assert_eq!(position_to_offset(&lines, Position::new(2, 0)), Some(12));
}

#[test]
fn test_apply_edits() {
    let content = "fn old_name() {}";
    let edits = vec![TextEdit::new(Range::new(Position::new(0, 3), Position::new(0, 11)), "new_name")];

    let result = apply_edits_to_string(content, &edits);
    assert_eq!(result, "fn new_name() {}");
}

#[test]
fn test_apply_multiple_edits() {
    let content = "let x = old;\nlet y = old;";
    let edits = vec![
        TextEdit::new(Range::new(Position::new(0, 8), Position::new(0, 11)), "new"),
        TextEdit::new(Range::new(Position::new(1, 8), Position::new(1, 11)), "new"),
    ];

    let result = apply_edits_to_string(content, &edits);
    assert_eq!(result, "let x = new;\nlet y = new;");
}

#[test]
fn test_workspace_edit_counts() {
    let mut edit = WorkspaceEdit::new();
    edit.add_edits(
        "file1.rs",
        vec![TextEdit::new(Range::new(Position::new(0, 0), Position::new(0, 3)), "foo")],
    );
    edit.add_edits(
        "file2.rs",
        vec![
            TextEdit::new(Range::new(Position::new(0, 0), Position::new(0, 3)), "bar"),
            TextEdit::new(Range::new(Position::new(1, 0), Position::new(1, 3)), "baz"),
        ],
    );

    assert_eq!(edit.file_count(), 2);
    assert_eq!(edit.edit_count(), 3);
}

#[test]
fn position_past_the_last_line_has_no_offset() {
    let lines = vec!["ab", "cd"];
    assert_eq!(position_to_offset(&lines, Position::new(2, 0)), Some(5));
    assert_eq!(position_to_offset(&lines, Position::new(3, 0)), None);
    assert_eq!(position_to_offset(&lines, Position::new(1, 2)), Some(5));
}

#[test]
fn edits_to_the_same_file_accumulate() {
    let mut edit = WorkspaceEdit::new();
    assert!(edit.is_empty());
    edit.add_edits("a.rs", vec![TextEdit::new(Range::new(Position::new(0, 0), Position::new(0, 1)), "x")]);
    edit.add_edits("a.rs", vec![TextEdit::new(Range::new(Position::new(1, 0), Position::new(1, 1)), "y")]);
    assert_eq!(edit.file_count(), 1);
    assert_eq!(edit.edit_count(), 2);
}

#[test]
fn windows_platform_names() {
    let p = Platform::detect("windows", "x86", false);
    assert_eq!(p.os, Os::Windows);
    assert_eq!(p.arch, Arch::X86);
    assert_eq!(p.display(), "Windows/X86");
}

#[test]
fn non_github_source_is_refused() {
    let package = Package {
        name: "test".into(),
        description: "".into(),
        homepage: "".into(),
        licenses: vec![],
        languages: vec![],
        categories: vec![],
        source: PackageSource { id: "pkg:npm/typescript@5".into(), asset: vec![] },
        bin: HashMap::new(),
    };
    let asset = SourceAsset { target: "linux_x64".into(), file: "x.gz".into(), bin: None };
    assert!(package.get_download_url(&asset).is_err());
}
