use ts_snapshot_host::DriverError;
use ts_snapshot_host::TSState;
use ts_snapshot_host::driver::CompileDriver;
use ts_snapshot_host::driver::EngineAction;
use ts_snapshot_host::driver::ExecOutcome;
use ts_snapshot_host::ops::OP_WRITE_FILE;
use ts_snapshot_host::ops::dispatch_op;
use ts_snapshot_host::proto::encode_write_file_control;
use ts_snapshot_host::snapshot::SnapshotAction;
use ts_snapshot_host::snapshot::SnapshotWriter;

fn demo_driver() -> CompileDriver {
    let cfg = ts_snapshot_host::config::compile_config_json();
    let roots = vec!["a.ts".to_string()];
    CompileDriver::new(
        "var ts = {};".to_string(),
        "function main() {}".to_string(),
        &cfg,
        &roots,
        "linux",
        "x64",
    )
}

#[test]
fn compile_driver_walks_the_fixed_order() {
    let mut d = demo_driver();

    match d.next_action() {
        EngineAction::Execute { name, source } => {
            assert_eq!(name, "assets/typescript.js");
            assert_eq!(source, "var ts = {};");
        }
        _ => panic!("expected the compiler payload load"),
    }
    assert!(d.step(&ExecOutcome::Succeeded).is_none());

    match d.next_action() {
        EngineAction::Execute { name, source } => {
            assert_eq!(name, "compiler_main.js");
            assert_eq!(source, "function main() {}");
        }
        _ => panic!("expected the bootstrap load"),
    }
    assert!(d.step(&ExecOutcome::Succeeded).is_none());

    assert!(matches!(d.next_action(), EngineAction::InstallDispatch));
    assert!(d.step(&ExecOutcome::Succeeded).is_none());

    match d.next_action() {
        EngineAction::Execute { name, source } => {
            assert_eq!(name, "<anon>");
            assert!(source.starts_with("main("));
            assert!(source.contains("[\"a.ts\"]"));
        }
        _ => panic!("expected the entry call"),
    }
    assert!(d.step(&ExecOutcome::Succeeded).is_none());

    assert!(d.is_done());
    assert!(matches!(d.next_action(), EngineAction::Finish));
}

#[test]
fn compile_driver_reports_script_failures() {
    let mut d = demo_driver();
    let err = d
        .step(&ExecOutcome::Failed { message: "SyntaxError: unexpected token".to_string() })
        .expect("a failed script must surface an error");
    match err {
        DriverError::ScriptFailure { resource, message } => {
            assert_eq!(resource, "assets/typescript.js");
            assert_eq!(message, "SyntaxError: unexpected token");
        }
        other => panic!("unexpected error {:?}", other),
    }
    assert!(d.is_failed());
    assert!(matches!(d.next_action(), EngineAction::Finish));
}

fn state_with_entry(entry: &str) -> TSState {
    let mut state = TSState::new(true);
    let control = encode_write_file_control("bundle.js", entry, "define('m', [], 1);").unwrap();
    dispatch_op(&mut state, OP_WRITE_FILE, &control).unwrap();
    state
}

fn demo_writer(include_compiler: bool) -> SnapshotWriter {
    let state = state_with_entry("file:///main.ts");
    let compiler = if include_compiler { Some("var ts = {};".to_string()) } else { None };
    SnapshotWriter::new(
        "build/bundle.js".to_string(),
        "out",
        "CLI_SNAPSHOT",
        "function require() {}".to_string(),
        compiler,
        &state,
    )
    .unwrap()
}

fn run_writer_to_done(include_compiler: bool) -> (Vec<u8>, String) {
    let mut w = demo_writer(include_compiler);
    assert!(matches!(w.next_action(), SnapshotAction::ReadBundle { .. }));
    assert!(w.supply_bundle(Some(b"define('main');".to_vec())).is_none());

    let mut executed: Vec<String> = Vec::new();
    loop {
        match w.next_action() {
            SnapshotAction::Execute { name, .. } => {
                executed.push(name);
                assert!(w.note_exec(&ExecOutcome::Succeeded).is_none());
            }
            SnapshotAction::TakeSnapshot => {
                w.supply_image(vec![0xCA, 0xFE, 0x01]);
            }
            SnapshotAction::Persist { path } => {
                let bytes = w.image_bytes().clone();
                assert!(w.note_persist(true).is_none());
                assert!(w.is_done());
                let expected: Vec<String> = if include_compiler {
                    vec![
                        "amd_runtime.js".to_string(),
                        "build/bundle.js".to_string(),
                        "typescript.js".to_string(),
                        "anon".to_string(),
                    ]
                } else {
                    vec![
                        "amd_runtime.js".to_string(),
                        "build/bundle.js".to_string(),
                        "anon".to_string(),
                    ]
                };
                assert_eq!(executed, expected);
                return (bytes, path);
            }
            SnapshotAction::ReadBundle { .. } | SnapshotAction::Finish => {
                panic!("unexpected action");
            }
        }
    }
}

#[test]
fn snapshot_writer_replays_bundle_then_freezes() {
    let (bytes, path) = run_writer_to_done(false);
    assert_eq!(bytes, vec![0xCA, 0xFE, 0x01]);
    assert_eq!(path, "out/CLI_SNAPSHOT.bin");
}

#[test]
fn self_hosting_snapshot_reloads_the_compiler() {
    let (bytes, path) = run_writer_to_done(true);
    assert_eq!(bytes, vec![0xCA, 0xFE, 0x01]);
    assert_eq!(path, "out/CLI_SNAPSHOT.bin");
}

#[test]
fn snapshot_writing_is_deterministic_on_equal_inputs() {
    // Two sessions over identical inputs and identical engine outcomes
    // persist byte-for-byte identical images at identical paths.
    let first = run_writer_to_done(false);
    let second = run_writer_to_done(false);
    assert_eq!(first.0, second.0);
    assert_eq!(first.1, second.1);
}

#[test]
fn missing_bundle_fails_before_any_engine_work() {
    let mut w = demo_writer(false);
    // The very first action is the file read: no engine action yet.
    match w.next_action() {
        SnapshotAction::ReadBundle { path } => assert_eq!(path, "build/bundle.js"),
        _ => panic!("the writer must start by reading the bundle"),
    }
    let err = w.supply_bundle(None).expect("a missing bundle is fatal");
    match err {
        DriverError::IoFailure { path } => assert_eq!(path, "build/bundle.js"),
        other => panic!("unexpected error {:?}", other),
    }
    assert!(w.is_failed());
    assert!(matches!(w.next_action(), SnapshotAction::Finish));
}

#[test]
fn non_utf8_bundle_fails_with_the_offending_path() {
    let mut w = demo_writer(false);
    let err = w.supply_bundle(Some(vec![0xFF, 0xFE, 0x80])).expect("bad encoding is fatal");
    assert!(matches!(err, DriverError::IoFailure { .. }));
    assert!(w.is_failed());
}

#[test]
fn bundle_script_failure_is_named_after_the_bundle() {
    let mut w = demo_writer(false);
    assert!(w.supply_bundle(Some(b"define();".to_vec())).is_none());
    assert!(w.note_exec(&ExecOutcome::Succeeded).is_none());
    let err = w
        .note_exec(&ExecOutcome::Failed { message: "ReferenceError".to_string() })
        .expect("a failed script must surface an error");
    match err {
        DriverError::ScriptFailure { resource, message } => {
            assert_eq!(resource, "build/bundle.js");
            assert_eq!(message, "ReferenceError");
        }
        other => panic!("unexpected error {:?}", other),
    }
    assert!(w.is_failed());
}

#[test]
fn snapshot_writer_refuses_a_state_with_no_written_files() {
    let state = TSState::new(false);
    let r = SnapshotWriter::new(
        "b.js".to_string(),
        "out",
        "VAR",
        "".to_string(),
        None,
        &state,
    );
    assert!(matches!(r, Err(DriverError::NoWrittenFiles)));
}
