use ts_snapshot_host::config::bundle_config_json;
use ts_snapshot_host::config::append_core_runtime_root;
use ts_snapshot_host::config::bootstrap_call_source;
use ts_snapshot_host::config::compile_config_json;
use ts_snapshot_host::config::preprocessor_replacements_json;
use ts_snapshot_host::config::require_call_source;
use ts_snapshot_host::config::snapshot_output_path;
use ts_snapshot_host::json::json_quote;
use ts_snapshot_host::json::json_string_array;

fn parse(s: &str) -> serde_json::Value {
    serde_json::from_str(s).expect("produced text must be valid JSON")
}

#[test]
fn json_quote_escapes_specials() {
    assert_eq!(json_quote("plain"), "\"plain\"");
    assert_eq!(json_quote("a\"b"), "\"a\\\"b\"");
    assert_eq!(json_quote("a\\b"), "\"a\\\\b\"");
    assert_eq!(json_quote("a\nb\tc\rd"), "\"a\\nb\\tc\\rd\"");
    assert_eq!(json_quote("\u{1}"), "\"\\u0001\"");
    assert_eq!(json_quote("\u{1f}"), "\"\\u001f\"");
    assert_eq!(json_quote(""), "\"\"");
}

#[test]
fn json_quote_agrees_with_a_real_json_parser() {
    let cases = [
        "simple",
        "with \"quotes\" and \\slashes\\",
        "line\nbreaks\tand\rcontrols \u{2} \u{1e}",
        "unicode: ü é ✓ \u{1F600}",
        "",
    ];
    for case in cases {
        let quoted = json_quote(case);
        let parsed: String = serde_json::from_str(&quoted).expect("quote must parse");
        assert_eq!(parsed, case);
    }
}

#[test]
fn json_string_array_forms() {
    let empty: Vec<String> = vec![];
    assert_eq!(json_string_array(&empty), "[]");
    let one = vec!["a.ts".to_string()];
    assert_eq!(json_string_array(&one), "[\"a.ts\"]");
    let two = vec!["a.ts".to_string(), "b\".ts".to_string()];
    assert_eq!(json_string_array(&two), "[\"a.ts\",\"b\\\".ts\"]");
    let parsed = parse(&json_string_array(&two));
    assert_eq!(parsed[0], "a.ts");
    assert_eq!(parsed[1], "b\".ts");
}

#[test]
fn compile_config_is_valid_json_with_expected_fields() {
    let cfg = compile_config_json();
    let v = parse(&cfg);
    let opts = &v["compilerOptions"];
    assert_eq!(opts["declaration"], true);
    assert_eq!(opts["module"], "esnext");
    assert_eq!(opts["target"], "esnext");
    assert_eq!(opts["lib"][0], "esnext");
    assert_eq!(opts["listFiles"], true);
    assert_eq!(opts["listEmittedFiles"], true);
    assert_eq!(opts["sourceMap"], true);
    assert!(opts.get("outFile").is_none());
}

#[test]
fn bundle_config_targets_the_given_output_file() {
    let cfg = bundle_config_json("build/CLI_SNAPSHOT.js");
    let v = parse(&cfg);
    let opts = &v["compilerOptions"];
    assert_eq!(opts["module"], "amd");
    assert_eq!(opts["outFile"], "build/CLI_SNAPSHOT.js");
    assert_eq!(opts["typeRoots"][0], "$typeRoots$");
}

#[test]
fn preprocessor_replacements_hold_platform_tags() {
    let r = preprocessor_replacements_json("linux", "x64");
    let v = parse(&r);
    assert_eq!(v["DENO_REPLACE_OS"], "linux");
    assert_eq!(v["DENO_REPLACE_ARCH"], "x64");
    let r = preprocessor_replacements_json("mac", "x64");
    let v = parse(&r);
    assert_eq!(v["DENO_REPLACE_OS"], "mac");
}

#[test]
fn core_runtime_root_is_appended_last() {
    let mut roots = vec!["cli/main.ts".to_string()];
    append_core_runtime_root(&mut roots);
    assert_eq!(roots, vec!["cli/main.ts".to_string(), "$asset$/lib.deno_core.d.ts".to_string()]);
}

#[test]
fn bootstrap_call_wraps_the_three_arguments() {
    let roots = vec!["a.ts".to_string()];
    let cfg = compile_config_json();
    let call = bootstrap_call_source(&cfg, &roots, "win", "x64");
    assert!(call.starts_with("main(\"{\\\"compilerOptions\\\":"));
    assert!(call.ends_with(")"));
    assert!(call.contains(", [\"a.ts\"], "));
    assert!(call.contains("{\"DENO_REPLACE_ARCH\":\"x64\",\"DENO_REPLACE_OS\":\"win\"}"));
}

#[test]
fn require_call_names_the_entry_module() {
    assert_eq!(require_call_source("file:///main.ts"), "require('file:///main.ts')");
}

#[test]
fn snapshot_path_derives_from_the_variable_name() {
    assert_eq!(snapshot_output_path("out", "CLI_SNAPSHOT"), "out/CLI_SNAPSHOT.bin");
    assert_eq!(
        snapshot_output_path("/tmp/build", "COMPILER_SNAPSHOT"),
        "/tmp/build/COMPILER_SNAPSHOT.bin"
    );
}
