//! Binary framing of the op channel: the control buffers the sandboxed
//! compiler sends with each op request, and the response buffers the
//! host returns.
//!
//! Every variable-length field travels as a four-byte little-endian
//! length followed by that many UTF-8 bytes. Decoding accepts exactly
//! the canonical encodings and refuses everything else.
use vstd::prelude::*;

use vstd::bytes::lemma_auto_spec_u32_to_from_le_bytes;
use vstd::bytes::spec_u32_from_le_bytes;
use vstd::bytes::spec_u32_to_le_bytes;
use vstd::bytes::u32_from_le_bytes;
use vstd::bytes::u32_to_le_bytes;
use vstd::utf8::decode_utf8;
use vstd::utf8::encode_utf8;
use vstd::utf8::valid_utf8;

use crate::text::string_from_utf8;

verus! {

/// The largest payload a four-byte length prefix can frame.
pub open spec fn spec_frame_limit() -> int {
    0x1_0000_0000
}

/// A length-prefixed field: four little-endian length bytes, then the
/// payload itself.
pub open spec fn spec_len_prefixed(payload: Seq<u8>) -> Seq<u8> {
    spec_u32_to_le_bytes(payload.len() as u32) + payload
}

/// Reading one length-prefixed field at `off`: the payload and the
/// offset just past it, or nothing when the buffer is too short.
pub open spec fn spec_take_len_prefixed(b: Seq<u8>, off: int) -> Option<(Seq<u8>, int)> {
    if 0 <= off && off + 4 <= b.len() {
        let n = spec_u32_from_le_bytes(b.subrange(off, off + 4)) as int;
        if off + 4 + n <= b.len() {
            Some((b.subrange(off + 4, off + 4 + n), off + 4 + n))
        } else {
            None
        }
    } else {
        None
    }
}

/// Reading a field off its own framing recovers the field: the framing
/// round-trips under any prefix and suffix.
pub proof fn lemma_take_len_prefixed(pre: Seq<u8>, payload: Seq<u8>, rest: Seq<u8>)
    requires
        payload.len() < spec_frame_limit(),
    ensures
        spec_take_len_prefixed(pre + spec_len_prefixed(payload) + rest, pre.len() as int)
            == Some((payload, (pre.len() + 4 + payload.len()) as int)),
{
    lemma_auto_spec_u32_to_from_le_bytes();
    let b = pre + spec_len_prefixed(payload) + rest;
    let off = pre.len() as int;
    assert(b.subrange(off, off + 4) =~= spec_u32_to_le_bytes(payload.len() as u32));
    assert(spec_u32_from_le_bytes(b.subrange(off, off + 4)) == payload.len() as u32);
    assert(b.subrange(off + 4, off + 4 + payload.len()) =~= payload);
}

/// Appends one length-prefixed field.
pub fn push_len_prefixed(out: &mut Vec<u8>, payload: &Vec<u8>)
    requires
        payload@.len() < spec_frame_limit(),
    ensures
        final(out)@ == old(out)@ + spec_len_prefixed(payload@),
{
    let n: u32 = payload.len() as u32;
    let mut lenb = u32_to_le_bytes(n);
    out.append(&mut lenb);
    out.extend_from_slice(payload.as_slice());
}

/// Reads one length-prefixed field at `off`, exactly as
/// [`spec_take_len_prefixed`] describes.
pub fn take_len_prefixed(b: &Vec<u8>, off: usize) -> (r: Option<(Vec<u8>, usize)>)
    ensures
        match r {
            Some(taken) => spec_take_len_prefixed(b@, off as int) == Some((taken.0@, taken.1 as int)),
            None => spec_take_len_prefixed(b@, off as int) is None,
        },
{
    let len = b.len();
    if off > len || len - off < 4 {
        return None;
    }
    let lenb = vstd::slice::slice_subrange(b.as_slice(), off, off + 4);
    let n32 = u32_from_le_bytes(lenb);
    let n = n32 as usize;
    if len - (off + 4) < n {
        return None;
    }
    let payload_slice = vstd::slice::slice_subrange(b.as_slice(), off + 4, off + 4 + n);
    let payload = vstd::slice::slice_to_vec(payload_slice);
    Some((payload, off + 4 + n))
}

/// The control buffer of a write-file request: destination url, owning
/// module, produced text.
pub open spec fn spec_write_file_control(
    url: Seq<char>,
    module_name: Seq<char>,
    source_code: Seq<char>,
) -> Seq<u8> {
    spec_len_prefixed(encode_utf8(url)) + spec_len_prefixed(encode_utf8(module_name))
        + spec_len_prefixed(encode_utf8(source_code))
}

/// What decoding a write-file control buffer yields: the three fields
/// when the buffer is exactly their canonical framing, nothing otherwise.
pub open spec fn spec_decode_write_file_control(b: Seq<u8>) -> Option<
    (Seq<char>, Seq<char>, Seq<char>),
> {
    match spec_take_len_prefixed(b, 0) {
        None => None,
        Some((ub, o1)) => match spec_take_len_prefixed(b, o1) {
            None => None,
            Some((mb, o2)) => match spec_take_len_prefixed(b, o2) {
                None => None,
                Some((sb, o3)) => if o3 == b.len() && valid_utf8(ub) && valid_utf8(mb)
                    && valid_utf8(sb) {
                    Some((decode_utf8(ub), decode_utf8(mb), decode_utf8(sb)))
                } else {
                    None
                },
            },
        },
    }
}

/// Builds the write-file control buffer; refuses a field too long for
/// its length prefix.
pub fn encode_write_file_control(url: &str, module_name: &str, source_code: &str) -> (r: Option<
    Vec<u8>,
>)
    ensures
        match r {
            Some(b) => b@ == spec_write_file_control(url@, module_name@, source_code@),
            None => encode_utf8(url@).len() >= spec_frame_limit() || encode_utf8(module_name@).len()
                >= spec_frame_limit() || encode_utf8(source_code@).len() >= spec_frame_limit(),
        },
{
    let ub = crate::text::str_bytes(url);
    let mb = crate::text::str_bytes(module_name);
    let sb = crate::text::str_bytes(source_code);
    if (ub.len() as u64) >= 0x1_0000_0000u64 || (mb.len() as u64) >= 0x1_0000_0000u64 || (
    sb.len() as u64) >= 0x1_0000_0000u64 {
        return None;
    }
    let mut out: Vec<u8> = Vec::new();
    push_len_prefixed(&mut out, &ub);
    push_len_prefixed(&mut out, &mb);
    push_len_prefixed(&mut out, &sb);
    proof {
        assert(out@ =~= spec_write_file_control(url@, module_name@, source_code@));
    }
    Some(out)
}

/// Decodes a write-file control buffer, exactly as
/// [`spec_decode_write_file_control`] describes.
pub fn decode_write_file_control(b: &Vec<u8>) -> (r: Option<(String, String, String)>)
    ensures
        match r {
            Some(f) => spec_decode_write_file_control(b@) == Some((f.0@, f.1@, f.2@)),
            None => spec_decode_write_file_control(b@) is None,
        },
{
    let t1 = take_len_prefixed(b, 0);
    match t1 {
        None => None,
        Some((ub, o1)) => {
            let t2 = take_len_prefixed(b, o1);
            match t2 {
                None => None,
                Some((mb, o2)) => {
                    let t3 = take_len_prefixed(b, o2);
                    match t3 {
                        None => None,
                        Some((sb, o3)) => {
                            if o3 != b.len() {
                                return None;
                            }
                            let us = string_from_utf8(ub);
                            let ms = string_from_utf8(mb);
                            let ss = string_from_utf8(sb);
                            match (us, ms, ss) {
                                (Some(u), Some(m), Some(s)) => Some((u, m, s)),
                                _ => None,
                            }
                        },
                    }
                },
            }
        },
    }
}

/// The write-file framing round-trips: decoding the canonical buffer
/// for three fields yields exactly those fields.
pub proof fn lemma_write_file_control_roundtrip(
    url: Seq<char>,
    module_name: Seq<char>,
    source_code: Seq<char>,
)
    requires
        encode_utf8(url).len() < spec_frame_limit(),
        encode_utf8(module_name).len() < spec_frame_limit(),
        encode_utf8(source_code).len() < spec_frame_limit(),
    ensures
        spec_decode_write_file_control(spec_write_file_control(url, module_name, source_code))
            == Some((url, module_name, source_code)),
{
    broadcast use vstd::utf8::encode_utf8_valid_utf8;
    broadcast use vstd::utf8::encode_utf8_decode_utf8;

    lemma_auto_spec_u32_to_from_le_bytes();
    let ub = encode_utf8(url);
    let mb = encode_utf8(module_name);
    let sb = encode_utf8(source_code);
    let b = spec_write_file_control(url, module_name, source_code);
    let empty = Seq::<u8>::empty();
    let o1 = 4 + ub.len() as int;
    let o2 = o1 + 4 + mb.len() as int;
    let o3 = o2 + 4 + sb.len() as int;
    assert(b.len() == o3);
    assert(b =~= empty + spec_len_prefixed(ub) + (spec_len_prefixed(mb) + spec_len_prefixed(sb)));
    lemma_take_len_prefixed(empty, ub, spec_len_prefixed(mb) + spec_len_prefixed(sb));
    assert(spec_take_len_prefixed(b, 0) == Some((ub, o1)));
    assert(b =~= (empty + spec_len_prefixed(ub)) + spec_len_prefixed(mb) + spec_len_prefixed(sb));
    lemma_take_len_prefixed(empty + spec_len_prefixed(ub), mb, spec_len_prefixed(sb));
    assert((empty + spec_len_prefixed(ub)).len() == o1);
    assert(spec_take_len_prefixed(b, o1) == Some((mb, o2)));
    assert(b =~= (empty + spec_len_prefixed(ub) + spec_len_prefixed(mb)) + spec_len_prefixed(sb)
        + empty);
    lemma_take_len_prefixed(empty + spec_len_prefixed(ub) + spec_len_prefixed(mb), sb, empty);
    assert((empty + spec_len_prefixed(ub) + spec_len_prefixed(mb)).len() == o2);
    assert(spec_take_len_prefixed(b, o2) == Some((sb, o3)));
}

/// The control buffer of an asset request: the asset name alone.
pub open spec fn spec_load_asset_control(name: Seq<char>) -> Seq<u8> {
    spec_len_prefixed(encode_utf8(name))
}

/// What decoding an asset-request control buffer yields.
pub open spec fn spec_decode_load_asset_control(b: Seq<u8>) -> Option<Seq<char>> {
    match spec_take_len_prefixed(b, 0) {
        None => None,
        Some((nb, o1)) => if o1 == b.len() && valid_utf8(nb) {
            Some(decode_utf8(nb))
        } else {
            None
        },
    }
}

/// Builds the asset-request control buffer; refuses a name too long for
/// its length prefix.
pub fn encode_load_asset_control(name: &str) -> (r: Option<Vec<u8>>)
    ensures
        match r {
            Some(b) => b@ == spec_load_asset_control(name@),
            None => encode_utf8(name@).len() >= spec_frame_limit(),
        },
{
    let nb = crate::text::str_bytes(name);
    if (nb.len() as u64) >= 0x1_0000_0000u64 {
        return None;
    }
    let mut out: Vec<u8> = Vec::new();
    push_len_prefixed(&mut out, &nb);
    proof {
        assert(out@ =~= spec_load_asset_control(name@));
    }
    Some(out)
}

/// Decodes an asset-request control buffer, exactly as
/// [`spec_decode_load_asset_control`] describes.
pub fn decode_load_asset_control(b: &Vec<u8>) -> (r: Option<String>)
    ensures
        match r {
            Some(n) => spec_decode_load_asset_control(b@) == Some(n@),
            None => spec_decode_load_asset_control(b@) is None,
        },
{
    match take_len_prefixed(b, 0) {
        None => None,
        Some((nb, o1)) => {
            if o1 != b.len() {
                return None;
            }
            string_from_utf8(nb)
        },
    }
}

/// The asset-request framing round-trips.
pub proof fn lemma_load_asset_control_roundtrip(name: Seq<char>)
    requires
        encode_utf8(name).len() < spec_frame_limit(),
    ensures
        spec_decode_load_asset_control(spec_load_asset_control(name)) == Some(name),
{
    broadcast use vstd::utf8::encode_utf8_valid_utf8;
    broadcast use vstd::utf8::encode_utf8_decode_utf8;

    lemma_auto_spec_u32_to_from_le_bytes();
    let nb = encode_utf8(name);
    let b = spec_load_asset_control(name);
    let empty = Seq::<u8>::empty();
    assert(b =~= empty + spec_len_prefixed(nb) + empty);
    lemma_take_len_prefixed(empty, nb, empty);
    assert(spec_take_len_prefixed(b, 0) == Some((nb, 4 + nb.len() as int)));
    assert(b.len() == 4 + nb.len());
}

/// The byte image of a diagnostics list: each entry length-prefixed, in
/// order.
pub open spec fn spec_diagnostics_bytes(ds: Seq<Seq<char>>) -> Seq<u8>
    decreases ds.len(),
{
    if ds.len() == 0 {
        Seq::<u8>::empty()
    } else {
        spec_len_prefixed(encode_utf8(ds[0])) + spec_diagnostics_bytes(ds.drop_first())
    }
}

/// Appending one diagnostic extends the list's byte image by that
/// entry's framing.
pub proof fn lemma_diagnostics_bytes_push(ds: Seq<Seq<char>>, x: Seq<char>)
    ensures
        spec_diagnostics_bytes(ds.push(x)) == spec_diagnostics_bytes(ds) + spec_len_prefixed(
            encode_utf8(x),
        ),
    decreases ds.len(),
{
    if ds.len() == 0 {
        assert(ds.push(x).drop_first() =~= Seq::<Seq<char>>::empty());
        assert(spec_diagnostics_bytes(Seq::<Seq<char>>::empty()) =~= Seq::<u8>::empty());
        assert(ds.push(x)[0] == x);
        assert(spec_diagnostics_bytes(ds.push(x)) =~= spec_diagnostics_bytes(ds)
            + spec_len_prefixed(encode_utf8(x)));
    } else {
        assert(ds.push(x).drop_first() =~= ds.drop_first().push(x));
        lemma_diagnostics_bytes_push(ds.drop_first(), x);
        assert(ds.push(x)[0] == ds[0]);
        assert(spec_diagnostics_bytes(ds.push(x)) == spec_len_prefixed(encode_utf8(ds[0])) + (
        spec_diagnostics_bytes(ds.drop_first()) + spec_len_prefixed(encode_utf8(x))));
        assert(spec_diagnostics_bytes(ds.push(x)) =~= spec_diagnostics_bytes(ds)
            + spec_len_prefixed(encode_utf8(x)));
    }
}

/// The emit-result trailer of an exit control buffer: the skip flag,
/// the diagnostic count, and the framed diagnostics.
pub open spec fn spec_emit_result_bytes(e: crate::state::EmitResultView) -> Seq<u8> {
    seq![if e.emit_skipped { 1u8 } else { 0u8 }] + spec_u32_to_le_bytes(e.diagnostics.len() as u32)
        + spec_diagnostics_bytes(e.diagnostics)
}

/// The control buffer of an exit request: the status code, then either
/// the absent marker or the present marker with the emit-result trailer.
pub open spec fn spec_exit_control(code: i32, emit: Option<crate::state::EmitResultView>) -> Seq<
    u8,
> {
    spec_u32_to_le_bytes(code as u32) + (match emit {
        None => seq![0u8],
        Some(e) => seq![1u8] + spec_emit_result_bytes(e),
    })
}

/// Whether an exit request fits its framing: the diagnostic count fits
/// the count word and each diagnostic fits its length prefix.
pub open spec fn spec_exit_encodable(emit: Option<crate::state::EmitResultView>) -> bool {
    match emit {
        None => true,
        Some(e) => e.diagnostics.len() < spec_frame_limit() && (forall|i: int|
            0 <= i < e.diagnostics.len() ==> encode_utf8(#[trigger] e.diagnostics[i]).len()
                < spec_frame_limit()),
    }
}

/// Reading `k` framed diagnostics at `off`: the list and the offset
/// just past it, or nothing when the buffer does not hold them.
pub open spec fn spec_take_diagnostics(b: Seq<u8>, off: int, k: nat) -> Option<
    (Seq<Seq<char>>, int),
>
    decreases k,
{
    if k == 0 {
        Some((Seq::<Seq<char>>::empty(), off))
    } else {
        match spec_take_len_prefixed(b, off) {
            None => None,
            Some((db, o)) => if valid_utf8(db) {
                match spec_take_diagnostics(b, o, (k - 1) as nat) {
                    None => None,
                    Some((rest, o2)) => Some((seq![decode_utf8(db)] + rest, o2)),
                }
            } else {
                None
            },
        }
    }
}

/// What decoding an exit control buffer yields.
pub open spec fn spec_decode_exit_control(b: Seq<u8>) -> Option<
    (i32, Option<crate::state::EmitResultView>),
> {
    if b.len() < 5 {
        None
    } else {
        let code = spec_u32_from_le_bytes(b.subrange(0, 4)) as i32;
        let flag = b[4];
        if flag == 0 {
            if b.len() == 5 {
                Some((code, None))
            } else {
                None
            }
        } else if flag == 1 {
            if b.len() < 10 {
                None
            } else {
                let skipb = b[5];
                if skipb == 0 || skipb == 1 {
                    let count = spec_u32_from_le_bytes(b.subrange(6, 10)) as nat;
                    match spec_take_diagnostics(b, 10, count) {
                        None => None,
                        Some((ds, end)) => if end == b.len() {
                            Some(
                                (code, Some(crate::state::EmitResultView {
                                    emit_skipped: skipb == 1,
                                    diagnostics: ds,
                                })),
                            )
                        } else {
                            None
                        },
                    }
                } else {
                    None
                }
            }
        } else {
            None
        }
    }
}

/// The response to an asset request: a found marker and the text's
/// UTF-8 bytes, or the not-found marker alone. Absence is an ordinary
/// response, never an error.
pub open spec fn spec_asset_response(text: Option<Seq<char>>) -> Seq<u8> {
    match text {
        Some(t) => seq![1u8] + encode_utf8(t),
        None => seq![0u8],
    }
}

/// Builds the asset response buffer.
pub fn encode_asset_response(text: Option<&str>) -> (r: Vec<u8>)
    ensures
        r@ == spec_asset_response(match text {
            Some(t) => Some(t@),
            None => None::<Seq<char>>,
        }),
{
    let mut out: Vec<u8> = Vec::new();
    match text {
        Some(t) => {
            out.push(1);
            let tb = crate::text::str_bytes(t);
            out.extend_from_slice(tb.as_slice());
            proof {
                assert(out@ =~= seq![1u8] + encode_utf8(t@));
            }
        },
        None => {
            out.push(0);
            proof {
                assert(out@ =~= seq![0u8]);
            }
        },
    }
    out
}

/// Builds the exit control buffer; refuses an emit result too large for
/// its framing.
pub fn encode_exit_control(code: i32, emit: &Option<crate::state::EmitResult>) -> (r: Option<
    Vec<u8>,
>)
    ensures
        match r {
            Some(b) => spec_exit_encodable(crate::state::opt_emit_view(*emit)) && b@
                == spec_exit_control(code, crate::state::opt_emit_view(*emit)),
            None => !spec_exit_encodable(crate::state::opt_emit_view(*emit)),
        },
{
    let mut out = u32_to_le_bytes(code as u32);
    match emit {
        None => {
            out.push(0);
            proof {
                assert(out@ =~= spec_exit_control(code, None));
            }
            Some(out)
        },
        Some(e) => {
            out.push(1);
            if e.emit_skipped {
                out.push(1);
            } else {
                out.push(0);
            }
            proof {
                assert(crate::state::opt_emit_view(*emit) == Some(e@));
            }
            if (e.diagnostics.len() as u64) >= 0x1_0000_0000u64 {
                proof {
                    assert(e@.diagnostics.len() >= spec_frame_limit());
                }
                return None;
            }
            let cnt: u32 = e.diagnostics.len() as u32;
            let mut cb = u32_to_le_bytes(cnt);
            out.append(&mut cb);
            let ghost dv = e@.diagnostics;
            let ghost prefix = out@;
            proof {
                assert(dv =~= e.diagnostics.deep_view());
            }
            let n = e.diagnostics.len();
            let mut i: usize = 0;
            while i < n
                invariant
                    i <= n,
                    n == dv.len(),
                    dv == e.diagnostics.deep_view(),
                    dv == e@.diagnostics,
                    crate::state::opt_emit_view(*emit) == Some(e@),
                    out@ == prefix + spec_diagnostics_bytes(dv.subrange(0, i as int)),
                    forall|j: int| 0 <= j < i ==> encode_utf8(#[trigger] dv[j]).len()
                        < spec_frame_limit(),
                decreases n - i,
            {
                let db = crate::text::str_bytes(e.diagnostics[i].as_str());
                proof {
                    assert(dv[i as int] == e.diagnostics@[i as int]@);
                }
                if (db.len() as u64) >= 0x1_0000_0000u64 {
                    proof {
                        assert(encode_utf8(dv[i as int]).len() >= spec_frame_limit());
                        assert(!spec_exit_encodable(crate::state::opt_emit_view(*emit)));
                    }
                    return None;
                }
                push_len_prefixed(&mut out, &db);
                i += 1;
                proof {
                    let pre = dv.subrange(0, i - 1);
                    let cur = dv.subrange(0, i as int);
                    assert(cur =~= pre.push(dv[i - 1]));
                    lemma_diagnostics_bytes_push(pre, dv[i - 1]);
                    assert(out@ =~= prefix + spec_diagnostics_bytes(cur));
                }
            }
            proof {
                assert(dv.subrange(0, n as int) =~= dv);
                assert(out@ =~= spec_exit_control(code, crate::state::opt_emit_view(*emit)));
            }
            Some(out)
        },
    }
}

/// Decodes an exit control buffer, exactly as
/// [`spec_decode_exit_control`] describes.
pub fn decode_exit_control(b: &Vec<u8>) -> (r: Option<(i32, Option<crate::state::EmitResult>)>)
    ensures
        match r {
            Some(p) => spec_decode_exit_control(b@) == Some(
                (p.0, crate::state::opt_emit_view(p.1)),
            ),
            None => spec_decode_exit_control(b@) is None,
        },
{
    let len = b.len();
    if len < 5 {
        return None;
    }
    let cb = vstd::slice::slice_subrange(b.as_slice(), 0, 4);
    let code = u32_from_le_bytes(cb) as i32;
    let flag = b[4];
    if flag == 0 {
        if len == 5 {
            return Some((code, None));
        } else {
            return None;
        }
    }
    if flag != 1 {
        return None;
    }
    if len < 10 {
        return None;
    }
    let skipb = b[5];
    if skipb > 1 {
        return None;
    }
    let ctb = vstd::slice::slice_subrange(b.as_slice(), 6, 10);
    let count32 = u32_from_le_bytes(ctb);
    let count = count32 as usize;
    let mut ds: Vec<String> = Vec::new();
    let mut off: usize = 10;
    let mut i: usize = 0;
    proof {
        assert(ds.deep_view() =~= Seq::<Seq<char>>::empty());
        match spec_take_diagnostics(b@, 10, count as nat) {
            None => {
            },
            Some(p) => {
                assert(ds.deep_view() + p.0 =~= p.0);
            },
        }
    }
    while i < count
        invariant
            i <= count,
            count == count32 as int,
            10 <= off <= b@.len(),
            len == b@.len(),
            b@.len() >= 10,
            b@[4] == 1u8,
            b@[5] == skipb,
            skipb == 0u8 || skipb == 1u8,
            count as nat == spec_u32_from_le_bytes(b@.subrange(6, 10)) as nat,
            code as i32 == spec_u32_from_le_bytes(b@.subrange(0, 4)) as i32,
            spec_take_diagnostics(b@, 10, count as nat) == (match spec_take_diagnostics(
                b@,
                off as int,
                (count - i) as nat,
            ) {
                None => None::<(Seq<Seq<char>>, int)>,
                Some(p) => Some((ds.deep_view() + p.0, p.1)),
            }),
        decreases count - i,
    {
        let ghost k = (count - i) as nat;
        let ghost ds_pre = ds.deep_view();
        let ghost off_pre = off as int;
        match take_len_prefixed(b, off) {
            None => {
                proof {
                    assert(k != 0);
                    assert(spec_take_diagnostics(b@, off_pre, k) is None);
                    assert(spec_take_diagnostics(b@, 10, count as nat) is None);
                    assert(spec_decode_exit_control(b@) is None);
                }
                return None;
            },
            Some((db, o)) => {
                let ghost dbv = db@;
                match string_from_utf8(db) {
                    None => {
                        proof {
                            assert(k != 0);
                            assert(!valid_utf8(dbv));
                            assert(spec_take_diagnostics(b@, off_pre, k) is None);
                            assert(spec_take_diagnostics(b@, 10, count as nat) is None);
                            assert(spec_decode_exit_control(b@) is None);
                        }
                        return None;
                    },
                    Some(s) => {
                        ds.push(s);
                        off = o;
                        i += 1;
                        proof {
                            assert(ds.deep_view() =~= ds_pre.push(s@));
                            match spec_take_diagnostics(b@, off as int, (count - i) as nat) {
                                None => {
                                    assert(spec_take_diagnostics(b@, off_pre, k) is None);
                                },
                                Some(p) => {
                                    assert(spec_take_diagnostics(b@, off_pre, k) == Some(
                                        ((seq![decode_utf8(dbv)] + p.0), p.1),
                                    ));
                                    assert(ds_pre + (seq![decode_utf8(dbv)] + p.0) =~= ds.deep_view()
                                        + p.0);
                                },
                            }
                        }
                    },
                }
            },
        }
    }
    proof {
        assert(spec_take_diagnostics(b@, off as int, 0) == Some(
            (Seq::<Seq<char>>::empty(), off as int),
        ));
        assert(ds.deep_view() + Seq::<Seq<char>>::empty() =~= ds.deep_view());
    }
    if off != len {
        return None;
    }
    let er = crate::state::EmitResult { emit_skipped: skipb == 1, diagnostics: ds };
    proof {
        assert(er@.diagnostics =~= er.diagnostics.deep_view());
    }
    Some((code, Some(er)))
}

/// Reading a diagnostics list off its own framing recovers the list.
pub proof fn lemma_take_diagnostics_roundtrip(pre: Seq<u8>, ds: Seq<Seq<char>>)
    requires
        forall|i: int| 0 <= i < ds.len() ==> encode_utf8(#[trigger] ds[i]).len()
            < spec_frame_limit(),
    ensures
        spec_take_diagnostics(pre + spec_diagnostics_bytes(ds), pre.len() as int, ds.len())
            == Some((ds, (pre.len() + spec_diagnostics_bytes(ds).len()) as int)),
    decreases ds.len(),
{
    broadcast use vstd::utf8::encode_utf8_valid_utf8;
    broadcast use vstd::utf8::encode_utf8_decode_utf8;

    lemma_auto_spec_u32_to_from_le_bytes();
    if ds.len() == 0 {
        assert(pre + spec_diagnostics_bytes(ds) =~= pre);
    } else {
        let d0b = spec_len_prefixed(encode_utf8(ds[0]));
        let tailb = spec_diagnostics_bytes(ds.drop_first());
        let b = pre + spec_diagnostics_bytes(ds);
        assert(b =~= pre + d0b + tailb);
        lemma_take_len_prefixed(pre, encode_utf8(ds[0]), tailb);
        let o1 = (pre.len() + d0b.len()) as int;
        assert(spec_take_len_prefixed(b, pre.len() as int) == Some((encode_utf8(ds[0]), o1)));
        lemma_take_diagnostics_roundtrip(pre + d0b, ds.drop_first());
        assert((pre + d0b) + tailb =~= b);
        assert(spec_take_diagnostics(b, o1, ds.drop_first().len()) == Some(
            (ds.drop_first(), (o1 + tailb.len()) as int),
        ));
        assert(seq![decode_utf8(encode_utf8(ds[0]))] + ds.drop_first() =~= ds);
        assert(spec_diagnostics_bytes(ds).len() == d0b.len() + tailb.len());
    }
}

/// The exit framing round-trips: decoding the canonical buffer for a
/// status and emit result yields exactly that status and emit result.
pub proof fn lemma_exit_control_roundtrip(code: i32, emit: Option<crate::state::EmitResultView>)
    requires
        spec_exit_encodable(emit),
    ensures
        spec_decode_exit_control(spec_exit_control(code, emit)) == Some((code, emit)),
{
    broadcast use vstd::utf8::encode_utf8_valid_utf8;
    broadcast use vstd::utf8::encode_utf8_decode_utf8;

    lemma_auto_spec_u32_to_from_le_bytes();
    let b = spec_exit_control(code, emit);
    assert(((code as u32) as i32) == code) by (bit_vector);
    assert(b.subrange(0, 4) =~= spec_u32_to_le_bytes(code as u32));
    match emit {
        None => {
            assert(b.len() == 5);
            assert(b[4] == 0u8);
        },
        Some(e) => {
            let ds = e.diagnostics;
            let head = spec_u32_to_le_bytes(code as u32) + seq![1u8] + seq![
                if e.emit_skipped {
                    1u8
                } else {
                    0u8
                },
            ] + spec_u32_to_le_bytes(ds.len() as u32);
            assert(b =~= head + spec_diagnostics_bytes(ds));
            assert(head.len() == 10);
            assert(b.len() >= 10);
            assert(b[4] == 1u8);
            assert(b.subrange(6, 10) =~= spec_u32_to_le_bytes(ds.len() as u32));
            assert(spec_u32_from_le_bytes(b.subrange(6, 10)) == ds.len() as u32);
            lemma_take_diagnostics_roundtrip(head, ds);
            assert(spec_take_diagnostics(b, 10, ds.len()) == Some(
                (ds, (head.len() + spec_diagnostics_bytes(ds).len()) as int),
            ));
            if e.emit_skipped {
                assert(b[5] == 1u8);
            } else {
                assert(b[5] == 0u8);
            }
            assert(spec_decode_exit_control(b) == Some((code, emit)));
        },
    }
}

/// The empty response of ops that answer nothing.
pub open spec fn spec_unit_response() -> Seq<u8> {
    Seq::<u8>::empty()
}

/// Builds the empty response buffer.
pub fn encode_unit_response() -> (r: Vec<u8>)
    ensures
        r@ == spec_unit_response(),
{
    let out: Vec<u8> = Vec::new();
    proof {
        assert(out@ =~= spec_unit_response());
    }
    out
}

} // verus!
