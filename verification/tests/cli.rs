//! Tests of the command-line logic.

use contract_forge::build_runner::{
    compose_rustflags, toml_escape, BuildTarget, ProjectMetadata, STACK_SIZE,
};
use contract_forge::cli::BuildScope;
use contract_forge::cli_error::CliError;
use contract_forge::commands::call::to_hex_prefixed;
use contract_forge::commands::check::{record, run as run_check, CheckItem};
use contract_forge::commands::verify::{check_hash, summarize_schema};
use contract_forge::counter::{CountChanged, Counter};
use contract_forge::detect::{ensure_forge_project, inspect_manifest, ManifestChecks};
use contract_forge::embedded::COUNTER_CARGO_TOML;
use contract_forge::string_map::StringMap;
use contract_forge::text::{
    ascii_lowercase, contains, decimal, hex, join, replace, signed_decimal, strip_char,
    strip_prefixes, trim, words,
};
use contract_forge::toolchain::{
    cargo_toolchain_arg, configured_channel, ensure_build, inspect, parse_toolchain_plain_channel,
    parse_toolchain_toml_channel, read_toolchain_channel, ToolchainStatus,
};

fn project() -> ProjectMetadata {
    ProjectMetadata {
        project_dir: "/p".to_string(),
        manifest_path: "/p/Cargo.toml".to_string(),
        crate_name: "my-app".to_string(),
        contract_target_dir: "/p/target/contract".to_string(),
        data_driver_target_dir: "/p/target/data-driver".to_string(),
        contract_wasm_path: "/p/target/contract/my_app.wasm".to_string(),
        data_driver_wasm_path: "/p/target/data-driver/my_app.wasm".to_string(),
    }
}

#[test]
fn build_targets_have_labels_and_paths() {
    assert_eq!(BuildTarget::Contract.label(), "contract");
    assert_eq!(BuildTarget::DataDriver.label(), "data-driver");
    assert_eq!(BuildTarget::Contract.feature(), "contract");
    assert_eq!(BuildTarget::DataDriver.feature(), "data-driver-js");
    assert_eq!(BuildTarget::Contract.wasm_path(&project()), "/p/target/contract/my_app.wasm");
    assert_eq!(BuildTarget::DataDriver.wasm_path(&project()), "/p/target/data-driver/my_app.wasm");
}

#[test]
fn build_scopes_expand_to_targets() {
    assert_eq!(BuildScope::Contract.expand(), vec![BuildTarget::Contract]);
    assert_eq!(BuildScope::DataDriver.expand(), vec![BuildTarget::DataDriver]);
    assert_eq!(BuildScope::All.expand(), vec![BuildTarget::Contract, BuildTarget::DataDriver]);
    assert!(BuildScope::Contract.needs_rust_src());
    assert!(BuildScope::All.needs_rust_src());
    assert!(!BuildScope::DataDriver.needs_rust_src());
    assert_eq!(BuildScope::default(), BuildScope::All);
}

#[test]
fn toolchain_channel_is_read_from_either_file() {
    assert_eq!(parse_toolchain_plain_channel("nightly-2024-07-30\n"), Some("nightly-2024-07-30".to_string()));
    assert_eq!(parse_toolchain_plain_channel("  stable \r\nsecond"), Some("stable".to_string()));
    assert_eq!(parse_toolchain_plain_channel("stable"), Some("stable".to_string()));
    assert_eq!(parse_toolchain_plain_channel(""), None);
    assert_eq!(parse_toolchain_plain_channel("   \nstable"), None);
    assert_eq!(parse_toolchain_plain_channel("\n"), None);
    let toml = "[toolchain]\nchannel = \"nightly-2024-07-30\"\ncomponents = [\"rust-src\"]\n";
    assert_eq!(parse_toolchain_toml_channel(toml), Some("nightly-2024-07-30".to_string()));
    assert_eq!(parse_toolchain_toml_channel("[toolchain]\nchannel = 3\n"), None);
    assert_eq!(parse_toolchain_toml_channel("[other]\nchannel = \"x\"\n"), None);
    assert_eq!(parse_toolchain_toml_channel("channel = \"x\"\n"), None);
    assert_eq!(parse_toolchain_toml_channel("not = = toml"), None);
    assert_eq!(read_toolchain_channel("rust-toolchain.toml", toml), Some("nightly-2024-07-30".to_string()));
    assert_eq!(read_toolchain_channel("rust-toolchain", "beta\n"), Some("beta".to_string()));
    assert_eq!(read_toolchain_channel("rust-toolchain", toml), Some("[toolchain]".to_string()));
}

#[test]
fn configured_channel_names_what_is_missing() {
    assert_eq!(
        configured_channel("/p", Some(("/p/rust-toolchain", "rust-toolchain", "stable\n"))).unwrap(),
        "stable"
    );
    assert_eq!(
        configured_channel("/p", None).unwrap_err().message(),
        "missing rust-toolchain.toml (or rust-toolchain) in /p or its parents"
    );
    assert_eq!(
        configured_channel("/p", Some(("/rust-toolchain.toml", "rust-toolchain.toml", "x")))
            .unwrap_err()
            .message(),
        "unable to read toolchain channel from /rust-toolchain.toml"
    );
    assert_eq!(cargo_toolchain_arg("nightly"), "+nightly");
}

fn status(installed: bool, wasm_target: bool, rust_src: bool) -> ToolchainStatus {
    ToolchainStatus { channel: "nightly".to_string(), installed, wasm_target, rust_src, wasm_opt: None }
}

#[test]
fn ensure_build_names_the_first_missing_part() {
    assert!(ensure_build(status(true, true, true), true).is_ok());
    assert!(ensure_build(status(true, true, false), false).is_ok());
    assert_eq!(
        ensure_build(status(false, false, false), true).unwrap_err().message(),
        "missing Rust toolchain 'nightly'. Install with: rustup toolchain install nightly"
    );
    assert_eq!(
        ensure_build(status(true, false, false), true).unwrap_err().message(),
        "missing wasm32-unknown-unknown target for toolchain 'nightly'. Install with: rustup target add wasm32-unknown-unknown --toolchain nightly"
    );
    assert_eq!(
        ensure_build(status(true, true, false), true).unwrap_err().message(),
        "missing rust-src component for toolchain 'nightly'. Install with: rustup component add rust-src --toolchain nightly"
    );
}

#[test]
fn inspect_reads_the_listings() {
    let found = inspect(
        "nightly",
        true,
        Some("x86_64-unknown-linux-gnu\nwasm32-unknown-unknown\n"),
        Some("cargo\nrust-src (installed)\n"),
        Some("/usr/bin/wasm-opt".to_string()),
    );
    assert_eq!(found.channel, "nightly");
    assert!(found.installed && found.wasm_target && found.rust_src);
    assert_eq!(found.wasm_opt.as_deref(), Some("/usr/bin/wasm-opt"));
    let bare = inspect("stable", false, Some("wasm32-wasi\n"), None, None);
    assert!(!bare.installed && !bare.wasm_target && !bare.rust_src);
    assert!(bare.wasm_opt.is_none());
}

#[test]
fn manifest_checks_read_the_manifest() {
    let checks = inspect_manifest(COUNTER_CARGO_TOML).expect("the manifest parses");
    assert_eq!(
        checks,
        ManifestChecks {
            has_dusk_forge_dependency: true,
            has_cdylib: true,
            has_contract_feature: true,
            has_data_driver_feature: true,
            has_release_overflow_checks: true,
        }
    );
    let bare = inspect_manifest("[package]\nname = \"x\"\n").unwrap();
    assert_eq!(
        bare,
        ManifestChecks {
            has_dusk_forge_dependency: false,
            has_cdylib: false,
            has_contract_feature: false,
            has_data_driver_feature: false,
            has_release_overflow_checks: false,
        }
    );
    let wasm_only = inspect_manifest(
        "[lib]\ncrate-type = [\"rlib\", 3, \"cdylib\"]\n[target.'cfg(target_family = \"wasm\")'.dependencies]\ndusk-forge = \"1\"\n[features]\ndata-driver-js = []\n[profile.release]\noverflow-checks = false\n",
    )
    .unwrap();
    assert!(wasm_only.has_dusk_forge_dependency);
    assert!(wasm_only.has_cdylib);
    assert!(!wasm_only.has_contract_feature);
    assert!(wasm_only.has_data_driver_feature);
    assert!(!wasm_only.has_release_overflow_checks);
    assert!(matches!(inspect_manifest("= broken"), Err(CliError::Toml(_))));
    assert!(ensure_forge_project(COUNTER_CARGO_TOML, "/p").is_ok());
    assert_eq!(
        ensure_forge_project("[package]\nname = \"x\"\n", "/p").unwrap_err().message(),
        "expected a Dusk Forge contract project at /p"
    );
    assert!(matches!(ensure_forge_project("= broken", "/p"), Err(CliError::Toml(_))));
}

#[test]
fn check_counts_failures() {
    let item = |name: &str, ok: bool| CheckItem { name: name.to_string(), ok };
    assert!(run_check(&vec![]).is_ok());
    assert!(run_check(&vec![item("a", true), item("b", true)]).is_ok());
    assert_eq!(
        run_check(&vec![item("a", false), item("b", true), item("c", false)]).unwrap_err().message(),
        "check failed with 2 issue(s)"
    );
    let many: Vec<_> = (0..12).map(|i| item("x", i == 5)).collect();
    assert_eq!(run_check(&many).unwrap_err().message(), "check failed with 11 issue(s)");
    let mut failures = 3;
    record(true, &mut failures);
    assert_eq!(failures, 3);
    record(false, &mut failures);
    assert_eq!(failures, 4);
}

#[test]
fn bytes_are_written_in_hexadecimal() {
    assert_eq!(to_hex_prefixed(&vec![]), "0x");
    assert_eq!(to_hex_prefixed(&vec![0x00, 0x0f, 0xa0, 0xff]), "0x000fa0ff");
    assert_eq!(hex(&vec![0x12, 0xab]), "12ab");
}

#[test]
fn hashes_are_compared_without_prefix_and_case() {
    assert!(check_hash("abc123", None).is_ok());
    assert!(check_hash("abc123", Some("abc123")).is_ok());
    assert!(check_hash("abc123", Some("0xABC123")).is_ok());
    assert!(check_hash("abc123", Some("0x0xAbC123")).is_ok());
    assert_eq!(
        check_hash("abc123", Some("0xABC124")).unwrap_err().message(),
        "BLAKE3 mismatch: expected abc124, got abc123"
    );
    assert!(check_hash("abc123", Some("x0abc123")).is_err());
}

#[test]
fn schema_summary_names_what_is_missing() {
    assert_eq!(
        summarize_schema("{\"name\": \"C\", \"functions\": [1, 2]}").unwrap(),
        ("C".to_string(), 2)
    );
    assert_eq!(
        summarize_schema("{\"functions\": [1]}").unwrap_err().message(),
        "schema is missing 'name'"
    );
    assert_eq!(
        summarize_schema("{\"name\": 3, \"functions\": [1]}").unwrap_err().message(),
        "schema is missing 'name'"
    );
    assert_eq!(
        summarize_schema("{\"name\": \"C\"}").unwrap_err().message(),
        "schema is missing 'functions' array"
    );
    assert_eq!(
        summarize_schema("{\"name\": \"C\", \"functions\": {}}").unwrap_err().message(),
        "schema is missing 'functions' array"
    );
    assert_eq!(
        summarize_schema("{\"name\": \"C\", \"functions\": []}").unwrap_err().message(),
        "schema contains zero functions"
    );
    assert!(summarize_schema("[").is_err());
    assert_eq!(summarize_schema("[1]").unwrap_err().message(), "schema is missing 'name'");
}

#[test]
fn counter_counts_and_reports_changes() {
    let mut counter = Counter::new();
    assert_eq!(counter.get_count(), 0);
    assert_eq!(counter.decrement(), CountChanged { old_value: 0, new_value: 0 });
    assert_eq!(counter.increment(), CountChanged { old_value: 0, new_value: 1 });
    assert_eq!(counter.set_count(42), CountChanged { old_value: 1, new_value: 42 });
    assert_eq!(counter.decrement(), CountChanged { old_value: 42, new_value: 41 });
    assert_eq!(counter.get_count(), 41);
    counter.set_count(u64::MAX);
    assert_eq!(counter.increment(), CountChanged { old_value: u64::MAX, new_value: u64::MAX });
}

#[test]
fn cli_errors_have_their_texts() {
    assert_eq!(CliError::Message("plain".to_string()).message(), "plain");
    assert_eq!(CliError::PathAlreadyExists("/x".to_string()).message(), "path already exists: /x");
    assert_eq!(
        CliError::MissingTool {
            tool: "cargo-expand".to_string(),
            hint: "Install with: cargo install cargo-expand".to_string()
        }
        .message(),
        "required tool not found: cargo-expand. Install with: cargo install cargo-expand"
    );
    assert_eq!(
        CliError::CommandFailed { program: "cargo build".to_string(), code: 101 }.message(),
        "command failed: cargo build (exit code 101)"
    );
    assert_eq!(
        CliError::CommandFailed { program: "x".to_string(), code: -1 }.message(),
        "command failed: x (exit code -1)"
    );
    assert_eq!(CliError::Io("gone".to_string()).message(), "I/O error: gone");
    assert_eq!(CliError::CargoMetadata("bad".to_string()).message(), "cargo metadata error: bad");
    assert_eq!(CliError::Toml("bad".to_string()).message(), "TOML parse error: bad");
}

#[test]
fn text_helpers_compute_exact_texts() {
    assert_eq!(trim("  a b\t\n"), "a b");
    assert_eq!(trim("\u{a0}\u{3000}x\u{2003}"), "x");
    assert_eq!(trim(" \n "), "");
    assert_eq!(trim(""), "");
    assert_eq!(strip_char("\"\"abc\"", '"'), "abc");
    assert_eq!(strip_char("\"\"", '"'), "");
    assert_eq!(replace("aXbXXc", "X", "--"), "a--b----c");
    assert_eq!(replace("aaa", "aa", "b"), "ba");
    assert_eq!(replace("abc", "abcd", "x"), "abc");
    assert_eq!(replace("", "a", "x"), "");
    assert!(contains("hello", "ell"));
    assert!(contains("hello", ""));
    assert!(!contains("hello", "elo"));
    assert!(!contains("", "a"));
    assert_eq!(join(&vec!["a".to_string(), "b".to_string(), "".to_string()], "::"), "a::b::");
    assert_eq!(join(&vec![], ", "), "");
    assert_eq!(decimal(0), "0");
    assert_eq!(decimal(1234567890), "1234567890");
    assert_eq!(decimal(u64::MAX), "18446744073709551615");
    assert_eq!(signed_decimal(-42), "-42");
    assert_eq!(signed_decimal(7), "7");
    assert_eq!(ascii_lowercase("AbC-\u{c9}9"), "abc-\u{c9}9");
    assert_eq!(strip_prefixes("0x0x12", "0x"), "12");
    assert_eq!(strip_prefixes("12", "0x"), "12");
}

#[test]
fn string_map_keeps_the_last_value_of_a_key() {
    let mut map = StringMap::new();
    assert!(map.get("a").is_none());
    map.insert("a".to_string(), "1".to_string());
    map.insert("b".to_string(), "2".to_string());
    map.insert("a".to_string(), "3".to_string());
    assert_eq!(map.get("a").unwrap(), "3");
    assert_eq!(map.get("b").unwrap(), "2");
    assert!(map.contains_key("a"));
    assert!(!map.contains_key("c"));
}

#[test]
fn words_are_split_at_white_space() {
    assert_eq!(words("  -C   opt-level=3\t--cfg\nfoo "), vec!["-C", "opt-level=3", "--cfg", "foo"]);
    assert_eq!(words("one"), vec!["one"]);
    assert_eq!(words("a\u{2003}b"), vec!["a", "b"]);
    assert!(words("").is_empty());
    assert!(words(" \t\n").is_empty());
}

#[test]
fn rustflags_are_composed_from_the_environment_values() {
    assert_eq!(STACK_SIZE, 65_536);
    assert_eq!(
        compose_rustflags(Some("  -C  opt-level=3 "), Some("/home/dev"), BuildTarget::Contract),
        "-C opt-level=3 --remap-path-prefix /home/dev= -C link-args=-zstack-size=65536"
    );
    assert_eq!(
        compose_rustflags(None, Some("/home/dev"), BuildTarget::DataDriver),
        "--remap-path-prefix /home/dev="
    );
    // An empty home directory is as good as none.
    assert_eq!(compose_rustflags(Some("--cfg x"), Some(""), BuildTarget::DataDriver), "--cfg x");
    assert_eq!(
        compose_rustflags(None, None, BuildTarget::Contract),
        "-C link-args=-zstack-size=65536"
    );
    assert_eq!(compose_rustflags(None, None, BuildTarget::DataDriver), "");
}

#[test]
fn paths_are_escaped_for_quoted_values() {
    assert_eq!(toml_escape("/plain/path"), "/plain/path");
    assert_eq!(toml_escape("C:\\forge\\macro"), "C:\\\\forge\\\\macro");
    assert_eq!(toml_escape("a\"b"), "a\\\"b");
    assert_eq!(toml_escape("\\\""), "\\\\\\\"");
}
