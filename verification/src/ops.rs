//! The op dispatcher: the host side of the numeric-op channel. Each
//! request carries a stable small op id and a control buffer; the
//! handler decodes the buffer, mutates the compile state, and returns a
//! response buffer. A malformed buffer, an unknown id, or an unexpected
//! payload buffer is a protocol violation that fails the session.
use vstd::prelude::*;

use crate::assets::get_asset;
use crate::assets::spec_get_asset;
use crate::errors::DriverError;
use crate::proto::decode_exit_control;
use crate::proto::decode_load_asset_control;
use crate::proto::decode_write_file_control;
use crate::proto::encode_asset_response;
use crate::proto::encode_unit_response;
use crate::proto::spec_asset_response;
use crate::proto::spec_decode_exit_control;
use crate::proto::spec_decode_load_asset_control;
use crate::proto::spec_decode_write_file_control;
use crate::proto::spec_unit_response;
use crate::state::TSState;
use crate::state::TSStateView;
use crate::state::WrittenFile;
use crate::state::WrittenFileView;

verus! {

/// Op id of a write-file request: the compiler reports one emitted file.
pub const OP_WRITE_FILE: u32 = 1;

/// Op id of an asset request: the compiler asks for a built-in
/// declaration module's text.
pub const OP_LOAD_ASSET: u32 = 2;

/// Op id of an exit request: the compiler reports its terminal status.
pub const OP_EXIT: u32 = 3;

/// Everything [`dispatch_op`] guarantees, relating the state before and
/// after the call, the request, and the result.
pub open spec fn spec_dispatch_post(
    pre: TSStateView,
    post: TSStateView,
    op_id: u32,
    control: Seq<u8>,
    r: Result<Vec<u8>, DriverError>,
) -> bool {
    if op_id == OP_WRITE_FILE {
        match spec_decode_write_file_control(control) {
            Some(f) => (r matches Ok(resp) && resp@ == spec_unit_response()) && post.written_files
                == pre.written_files.push(
                WrittenFileView { url: f.0, module_name: f.1, source_code: f.2 },
            ) && post.bundle == pre.bundle && post.exit_code == pre.exit_code && post.emit_result
                == pre.emit_result,
            None => (r matches Err(e) && e is InvariantViolation) && post == pre,
        }
    } else if op_id == OP_LOAD_ASSET {
        post == pre && (match spec_decode_load_asset_control(control) {
            Some(name) => r matches Ok(resp) && resp@ == spec_asset_response(spec_get_asset(name)),
            None => r matches Err(e) && e is InvariantViolation,
        })
    } else if op_id == OP_EXIT {
        match spec_decode_exit_control(control) {
            Some(p) => (r matches Ok(resp) && resp@ == spec_unit_response()) && post.exit_code
                == p.0 as int && post.emit_result == p.1 && post.bundle == pre.bundle
                && post.written_files == pre.written_files,
            None => (r matches Err(e) && e is InvariantViolation) && post == pre,
        }
    } else {
        (r matches Err(e) && e is InvariantViolation) && post == pre
    }
}

/// Decodes and performs one op request against the compile state.
pub fn dispatch_op(state: &mut TSState, op_id: u32, control: &Vec<u8>) -> (r: Result<
    Vec<u8>,
    DriverError,
>)
    ensures
        spec_dispatch_post(old(state)@, final(state)@, op_id, control@, r),
{
    if op_id == OP_WRITE_FILE {
        match decode_write_file_control(control) {
            Some((url, module_name, source_code)) => {
                let f = WrittenFile { url, module_name, source_code };
                state.record_written_file(f);
                Ok(encode_unit_response())
            },
            None => Err(DriverError::InvariantViolation),
        }
    } else if op_id == OP_LOAD_ASSET {
        match decode_load_asset_control(control) {
            Some(name) => {
                let text = get_asset(name.as_str());
                Ok(encode_asset_response(text))
            },
            None => Err(DriverError::InvariantViolation),
        }
    } else if op_id == OP_EXIT {
        match decode_exit_control(control) {
            Some((code, emit)) => {
                state.set_exit(code, emit);
                Ok(encode_unit_response())
            },
            None => Err(DriverError::InvariantViolation),
        }
    } else {
        Err(DriverError::InvariantViolation)
    }
}

/// The dispatch entry the embedder installs. The compiler-hosting
/// protocol never sends a payload buffer beside the control buffer, so
/// one arriving is a violation the caller must treat as fatal.
pub fn handle_op(state: &mut TSState, op_id: u32, control: &Vec<u8>, has_payload: bool) -> (r:
    Result<Vec<u8>, DriverError>)
    ensures
        has_payload ==> (r matches Err(e) && e is InvariantViolation) && final(state)@ == old(
            state,
        )@,
        !has_payload ==> spec_dispatch_post(old(state)@, final(state)@, op_id, control@, r),
{
    if has_payload {
        Err(DriverError::InvariantViolation)
    } else {
        dispatch_op(state, op_id, control)
    }
}

/// Asset resolution through the op channel is stateless: the same
/// request gets the same response whatever state either session is in,
/// and neither session's state moves.
pub proof fn lemma_asset_dispatch_stateless(
    pre1: TSStateView,
    post1: TSStateView,
    r1: Result<Vec<u8>, DriverError>,
    pre2: TSStateView,
    post2: TSStateView,
    r2: Result<Vec<u8>, DriverError>,
    control: Seq<u8>,
)
    requires
        spec_dispatch_post(pre1, post1, OP_LOAD_ASSET, control, r1),
        spec_dispatch_post(pre2, post2, OP_LOAD_ASSET, control, r2),
    ensures
        post1 == pre1,
        post2 == pre2,
        match (r1, r2) {
            (Ok(a), Ok(b)) => a@ == b@,
            (Err(e1), Err(e2)) => e1 is InvariantViolation && e2 is InvariantViolation,
            _ => false,
        },
{
}

/// A dispatched write-file request whose control buffer decodes to `f`
/// effects exactly one emission on the state's image.
pub proof fn lemma_write_file_dispatch_is_emission(
    pre: TSStateView,
    post: TSStateView,
    control: Seq<u8>,
    r: Result<Vec<u8>, DriverError>,
    f: (Seq<char>, Seq<char>, Seq<char>),
)
    requires
        spec_dispatch_post(pre, post, OP_WRITE_FILE, control, r),
        spec_decode_write_file_control(control) == Some(f),
    ensures
        post == spec_apply_write_file(
            pre,
            WrittenFileView { url: f.0, module_name: f.1, source_code: f.2 },
        ),
{
}

/// One write-file effect on a state's image.
pub open spec fn spec_apply_write_file(v: TSStateView, f: WrittenFileView) -> TSStateView {
    TSStateView {
        bundle: v.bundle,
        exit_code: v.exit_code,
        emit_result: v.emit_result,
        written_files: v.written_files.push(f),
    }
}

/// The effect of a whole sequence of write-file requests, first to last.
pub open spec fn spec_apply_emissions(v: TSStateView, fs: Seq<WrittenFileView>) -> TSStateView
    decreases fs.len(),
{
    if fs.len() == 0 {
        v
    } else {
        spec_apply_emissions(spec_apply_write_file(v, fs[0]), fs.drop_first())
    }
}

/// Emission order is preserved: a compile session's written files are
/// the files the compiler reported, appended in the order it reported
/// them, and the final record is the one reported last.
pub proof fn lemma_emission_order_preserved(v: TSStateView, fs: Seq<WrittenFileView>)
    ensures
        spec_apply_emissions(v, fs).written_files == v.written_files + fs,
        spec_apply_emissions(v, fs).bundle == v.bundle,
        spec_apply_emissions(v, fs).exit_code == v.exit_code,
        spec_apply_emissions(v, fs).emit_result == v.emit_result,
        fs.len() > 0 ==> spec_apply_emissions(v, fs).written_files.last() == fs.last(),
    decreases fs.len(),
{
    if fs.len() == 0 {
        assert(v.written_files + fs =~= v.written_files);
    } else {
        let v1 = spec_apply_write_file(v, fs[0]);
        lemma_emission_order_preserved(v1, fs.drop_first());
        assert(v.written_files.push(fs[0]) + fs.drop_first() =~= v.written_files + fs);
        if fs.len() > 1 {
            assert(fs.drop_first().last() == fs.last());
        } else {
            assert((v.written_files + fs).last() == fs[0]);
        }
    }
}

} // verus!
