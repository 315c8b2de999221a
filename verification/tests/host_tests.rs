use ts_snapshot_host::DriverError;
use ts_snapshot_host::EmitResult;
use ts_snapshot_host::TSState;
use ts_snapshot_host::get_asset;
use ts_snapshot_host::ops::OP_EXIT;
use ts_snapshot_host::ops::OP_LOAD_ASSET;
use ts_snapshot_host::ops::OP_WRITE_FILE;
use ts_snapshot_host::ops::dispatch_op;
use ts_snapshot_host::ops::handle_op;
use ts_snapshot_host::proto::encode_exit_control;
use ts_snapshot_host::proto::encode_load_asset_control;
use ts_snapshot_host::proto::encode_write_file_control;

fn write_file_buf(url: &str, module: &str, source: &str) -> Vec<u8> {
    encode_write_file_control(url, module, source).unwrap()
}

#[test]
fn compile_session_records_one_written_file() {
    // A compile of the single root module list ["a.ts"]: the compiler
    // reports one output file and a success exit.
    let mut state = TSState::new(false);
    let control = write_file_buf("a.js", "a.ts", "export const x = 1;\n");
    let resp = dispatch_op(&mut state, OP_WRITE_FILE, &control).unwrap();
    assert!(resp.is_empty());

    let exit = encode_exit_control(0, &None).unwrap();
    let resp = dispatch_op(&mut state, OP_EXIT, &exit).unwrap();
    assert!(resp.is_empty());

    assert_eq!(state.written_file_count(), 1);
    let f = state.written_file(0);
    assert_eq!(f.url, "a.js");
    assert_eq!(f.module_name, "a.ts");
    assert_eq!(f.source_code, "export const x = 1;\n");
    assert_eq!(state.exit_code(), 0);
    assert_eq!(state.entry_module_name().unwrap(), "a.ts");
}

#[test]
fn emission_order_is_preserved() {
    let mut state = TSState::new(true);
    let first = write_file_buf("one.js", "one.ts", "var one = 1;");
    let second = write_file_buf("two.js", "two.ts", "var two = 2;");
    let third = write_file_buf("main.js", "main.ts", "var main = 3;");
    dispatch_op(&mut state, OP_WRITE_FILE, &first).unwrap();
    dispatch_op(&mut state, OP_WRITE_FILE, &second).unwrap();
    dispatch_op(&mut state, OP_WRITE_FILE, &third).unwrap();
    assert_eq!(state.written_file_count(), 3);
    assert_eq!(state.written_file(0).url, "one.js");
    assert_eq!(state.written_file(1).url, "two.js");
    assert_eq!(state.written_file(2).url, "main.js");
    // The record emitted last designates the entry module.
    assert_eq!(state.entry_module_name().unwrap(), "main.ts");
    assert!(state.bundle());
}

#[test]
fn missing_asset_is_a_response_not_an_error() {
    // An unknown name resolves to "not found" and the session goes on.
    assert_eq!(get_asset("lib.nonexistent.d.ts"), None);

    let mut state = TSState::new(false);
    let control = encode_load_asset_control("lib.nonexistent.d.ts").unwrap();
    let resp = dispatch_op(&mut state, OP_LOAD_ASSET, &control).unwrap();
    assert_eq!(resp, vec![0u8]);
    // The lookup left the state untouched.
    assert_eq!(state.written_file_count(), 0);
    assert_eq!(state.exit_code(), 0);
}

#[test]
fn found_asset_response_carries_the_text() {
    let mut state = TSState::new(false);
    let control = encode_load_asset_control("lib.es5.d.ts").unwrap();
    let resp = dispatch_op(&mut state, OP_LOAD_ASSET, &control).unwrap();
    let text = get_asset("lib.es5.d.ts").unwrap();
    let mut expected = vec![1u8];
    expected.extend_from_slice(text.as_bytes());
    assert_eq!(resp, expected);
}

#[test]
fn asset_resolution_is_pure() {
    // The same name gives the same outcome, whatever happened between.
    let before = get_asset("lib.es2015.core.d.ts");
    let miss_before = get_asset("lib.no.such.d.ts");
    let mut state = TSState::new(false);
    let control = write_file_buf("x.js", "x.ts", "var x;");
    dispatch_op(&mut state, OP_WRITE_FILE, &control).unwrap();
    let exit = encode_exit_control(7, &None).unwrap();
    dispatch_op(&mut state, OP_EXIT, &exit).unwrap();
    assert_eq!(get_asset("lib.es2015.core.d.ts"), before);
    assert_eq!(get_asset("lib.no.such.d.ts"), miss_before);
    assert!(before.is_some());
    assert!(miss_before.is_none());
}

#[test]
fn every_catalog_entry_resolves() {
    let names = [
        "lib.deno_core.d.ts",
        "lib.esnext.d.ts",
        "lib.es2019.d.ts",
        "lib.es2018.d.ts",
        "lib.es2017.d.ts",
        "lib.es2016.d.ts",
        "lib.es5.d.ts",
        "lib.es2015.d.ts",
        "lib.es2015.core.d.ts",
        "lib.es2015.collection.d.ts",
        "lib.es2015.generator.d.ts",
        "lib.es2015.iterable.d.ts",
        "lib.es2015.promise.d.ts",
        "lib.es2015.symbol.d.ts",
        "lib.es2015.proxy.d.ts",
        "lib.es2015.symbol.wellknown.d.ts",
        "lib.es2015.reflect.d.ts",
        "lib.es2016.array.include.d.ts",
        "lib.es2017.object.d.ts",
        "lib.es2017.sharedmemory.d.ts",
        "lib.es2017.string.d.ts",
        "lib.es2017.intl.d.ts",
        "lib.es2017.typedarrays.d.ts",
        "lib.es2018.asynciterable.d.ts",
        "lib.es2018.promise.d.ts",
        "lib.es2018.regexp.d.ts",
        "lib.es2018.intl.d.ts",
        "lib.es2019.array.d.ts",
        "lib.es2019.object.d.ts",
        "lib.es2019.string.d.ts",
        "lib.es2019.symbol.d.ts",
        "lib.esnext.bigint.d.ts",
        "lib.esnext.intl.d.ts",
    ];
    for name in names {
        let text = get_asset(name).unwrap_or_else(|| panic!("{} did not resolve", name));
        assert!(!text.is_empty());
    }
    assert!(get_asset("lib.es2020.d.ts").is_none());
    assert!(get_asset("").is_none());
}

#[test]
fn exit_op_stores_code_and_emit_result() {
    let mut state = TSState::new(false);
    let emit = EmitResult {
        emit_skipped: false,
        diagnostics: vec!["TS2304: cannot find name".to_string()],
    };
    let exit = encode_exit_control(1, &Some(emit)).unwrap();
    dispatch_op(&mut state, OP_EXIT, &exit).unwrap();
    assert_eq!(state.exit_code(), 1);
    let stored = state.emit_result().as_ref().unwrap();
    assert!(!stored.emit_skipped);
    assert_eq!(stored.diagnostics, vec!["TS2304: cannot find name".to_string()]);
}

#[test]
fn unknown_op_id_is_an_invariant_violation() {
    let mut state = TSState::new(false);
    let control = encode_load_asset_control("lib.es5.d.ts").unwrap();
    let r = dispatch_op(&mut state, 42, &control);
    assert!(matches!(r, Err(DriverError::InvariantViolation)));
    assert_eq!(state.written_file_count(), 0);
}

#[test]
fn unexpected_payload_buffer_is_an_invariant_violation() {
    // The compiler-hosting protocol never sends a payload buffer.
    let mut state = TSState::new(false);
    let control = write_file_buf("a.js", "a.ts", "var a;");
    let r = handle_op(&mut state, OP_WRITE_FILE, &control, true);
    assert!(matches!(r, Err(DriverError::InvariantViolation)));
    assert_eq!(state.written_file_count(), 0);
    // Without a payload the same request succeeds.
    let r = handle_op(&mut state, OP_WRITE_FILE, &control, false);
    assert!(r.is_ok());
    assert_eq!(state.written_file_count(), 1);
}

#[test]
fn entry_module_of_empty_state_is_refused() {
    let state = TSState::new(false);
    assert!(matches!(state.entry_module_name(), Err(DriverError::NoWrittenFiles)));
}
