use ts_snapshot_host::EmitResult;
use ts_snapshot_host::proto::decode_exit_control;
use ts_snapshot_host::proto::decode_load_asset_control;
use ts_snapshot_host::proto::decode_write_file_control;
use ts_snapshot_host::proto::encode_asset_response;
use ts_snapshot_host::proto::encode_exit_control;
use ts_snapshot_host::proto::encode_load_asset_control;
use ts_snapshot_host::proto::encode_unit_response;
use ts_snapshot_host::proto::encode_write_file_control;
use ts_snapshot_host::proto::take_len_prefixed;

#[test]
fn write_file_control_round_trips() {
    let b = encode_write_file_control("out/a.js", "file:///a.ts", "export const x = 1;\n").unwrap();
    let (url, module, source) = decode_write_file_control(&b).unwrap();
    assert_eq!(url, "out/a.js");
    assert_eq!(module, "file:///a.ts");
    assert_eq!(source, "export const x = 1;\n");
}

#[test]
fn write_file_control_round_trips_non_ascii() {
    let b = encode_write_file_control("ü.js", "módulo.ts", "// ✓ done\u{1F600}").unwrap();
    let (url, module, source) = decode_write_file_control(&b).unwrap();
    assert_eq!(url, "ü.js");
    assert_eq!(module, "módulo.ts");
    assert_eq!(source, "// ✓ done\u{1F600}");
}

#[test]
fn write_file_control_layout_is_length_prefixed() {
    let b = encode_write_file_control("ab", "c", "").unwrap();
    // 4-byte little-endian length, then the bytes, three times over.
    assert_eq!(
        b,
        vec![2, 0, 0, 0, b'a', b'b', 1, 0, 0, 0, b'c', 0, 0, 0, 0]
    );
}

#[test]
fn truncated_write_file_control_is_refused() {
    let b = encode_write_file_control("a.js", "a.ts", "var a;").unwrap();
    for cut in 0..b.len() {
        let shorter = b[..cut].to_vec();
        assert!(decode_write_file_control(&shorter).is_none(), "cut {}", cut);
    }
}

#[test]
fn trailing_bytes_after_write_file_control_are_refused() {
    let mut b = encode_write_file_control("a.js", "a.ts", "var a;").unwrap();
    b.push(0);
    assert!(decode_write_file_control(&b).is_none());
}

#[test]
fn invalid_utf8_field_is_refused() {
    // A lone continuation byte framed as the single field.
    let b = vec![1, 0, 0, 0, 0x80];
    assert!(decode_load_asset_control(&b).is_none());
}

#[test]
fn load_asset_control_round_trips() {
    let b = encode_load_asset_control("lib.es5.d.ts").unwrap();
    assert_eq!(decode_load_asset_control(&b).unwrap(), "lib.es5.d.ts");
}

#[test]
fn exit_control_round_trips_without_emit_result() {
    let b = encode_exit_control(0, &None).unwrap();
    let (code, emit) = decode_exit_control(&b).unwrap();
    assert_eq!(code, 0);
    assert!(emit.is_none());

    let b = encode_exit_control(-7, &None).unwrap();
    let (code, emit) = decode_exit_control(&b).unwrap();
    assert_eq!(code, -7);
    assert!(emit.is_none());
}

#[test]
fn exit_control_round_trips_with_emit_result() {
    let emit = EmitResult {
        emit_skipped: true,
        diagnostics: vec!["first".to_string(), "second".to_string(), "".to_string()],
    };
    let b = encode_exit_control(1, &Some(emit)).unwrap();
    let (code, decoded) = decode_exit_control(&b).unwrap();
    assert_eq!(code, 1);
    let decoded = decoded.unwrap();
    assert!(decoded.emit_skipped);
    assert_eq!(
        decoded.diagnostics,
        vec!["first".to_string(), "second".to_string(), "".to_string()]
    );
}

#[test]
fn exit_control_with_bad_marker_is_refused() {
    let mut b = encode_exit_control(0, &None).unwrap();
    assert_eq!(b.len(), 5);
    b[4] = 2;
    assert!(decode_exit_control(&b).is_none());
}

#[test]
fn short_exit_control_is_refused() {
    assert!(decode_exit_control(&vec![]).is_none());
    assert!(decode_exit_control(&vec![0, 0, 0, 0]).is_none());
}

#[test]
fn exit_control_with_missing_diagnostics_is_refused() {
    let emit = EmitResult { emit_skipped: false, diagnostics: vec!["gone".to_string()] };
    let b = encode_exit_control(0, &Some(emit)).unwrap();
    let shorter = b[..b.len() - 1].to_vec();
    assert!(decode_exit_control(&shorter).is_none());
}

#[test]
fn asset_response_markers() {
    assert_eq!(encode_asset_response(None), vec![0u8]);
    let found = encode_asset_response(Some("abc"));
    assert_eq!(found, vec![1u8, b'a', b'b', b'c']);
    assert_eq!(encode_unit_response(), Vec::<u8>::new());
}

#[test]
fn take_len_prefixed_reads_at_offsets() {
    let b = vec![9u8, 2, 0, 0, 0, 7, 8, 1, 0, 0, 0, 5];
    let (payload, next) = take_len_prefixed(&b, 1).unwrap();
    assert_eq!(payload, vec![7, 8]);
    assert_eq!(next, 7);
    let (payload, next) = take_len_prefixed(&b, 7).unwrap();
    assert_eq!(payload, vec![5]);
    assert_eq!(next, 12);
    assert!(take_len_prefixed(&b, 12).is_none());
    // A length that overruns the buffer is refused.
    let overrun = vec![5u8, 0, 0, 0, 1, 2];
    assert!(take_len_prefixed(&overrun, 0).is_none());
}
