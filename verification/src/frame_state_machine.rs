//! Byte-by-byte parser of the frames the ATK-MS901M sends.
//!
//! A frame on the wire is the header `0x55` followed by `0x55` for an
//! uploaded frame or `0xAF` for an answer, an identifier, a length of at
//! most 28, as many data bytes as the length announces, and a checksum
//! byte: the sum, modulo 256, of all the bytes before it.
//!
//! The parser is asked for one identifier and one frame type. It accepts
//! only the high header byte of that type and only that identifier (which,
//! for an uploaded frame, must be an upload identifier between 1 and 6);
//! any other byte at those places drops what was gathered, so frames of
//! other identifiers or types are skipped. A completed frame whose checksum
//! byte matches is returned as `Ok`; one whose checksum byte does not match
//! is reported as a `Checksum` error. Either way the parser starts over.

use vstd::prelude::*;
use crate::atk_defines::{
    byte_sum, frame_checksum, is_upload_id, wrap_add, zero_data, zero_frame, AtkMs901mError, AtkMs901mFrame,
    AtkMs901mFrameUploadId, AtkMs901mHandleState, FrameModel, ATK_MS901M_FRAME_DAT_MAX_SIZE,
    ATK_MS901M_FRAME_HEAD_ACK_H, ATK_MS901M_FRAME_HEAD_L, ATK_MS901M_FRAME_HEAD_UPLOAD_H,
    ATK_MS901M_FRAME_ID_TYPE_UPLOAD,
};

verus! {

/// Frame parsing state machine.
pub struct FrameStateMachine {
    /// The frame being assembled.
    pub frame: AtkMs901mFrame,
    /// Current parsing state.
    pub state: AtkMs901mHandleState,
    /// Index of the next data byte.
    pub dat_index: usize,
}

/// Mathematical model of the parser.
#[verifier::ext_equal]
pub struct ParserModel {
    /// The frame being assembled.
    pub frame: FrameModel,
    /// Current parsing state.
    pub state: AtkMs901mHandleState,
    /// Index of the next data byte.
    pub dat_index: nat,
}

impl View for FrameStateMachine {
    type V = ParserModel;

    open spec fn view(&self) -> ParserModel {
        ParserModel { frame: self.frame@, state: self.state, dat_index: self.dat_index as nat }
    }
}

/// The parser as constructed or reset: waiting for a header, empty frame.
pub open spec fn initial_parser() -> ParserModel {
    ParserModel { frame: zero_frame(), state: AtkMs901mHandleState::WaitForHeadL, dat_index: 0 }
}

/// The high header byte of the frames of type `t`: `0x55` for uploaded
/// frames, `0xAF` for answers.
pub open spec fn expected_head_h(t: u8) -> u8 {
    if t == ATK_MS901M_FRAME_ID_TYPE_UPLOAD {
        ATK_MS901M_FRAME_HEAD_UPLOAD_H
    } else {
        ATK_MS901M_FRAME_HEAD_ACK_H
    }
}

/// Whether `b` is the identifier asked for: the requested `id`, which for
/// an uploaded frame must also be an upload identifier.
pub open spec fn wanted_id(b: u8, id: u8, t: u8) -> bool {
    b == id && (t != ATK_MS901M_FRAME_ID_TYPE_UPLOAD || is_upload_id(b))
}

/// What the checksum byte `b` makes of the assembled frame `f`: the frame
/// when `b` is its checksum, a `Checksum` error otherwise.
pub open spec fn frame_outcome(f: FrameModel, b: u8) -> Result<FrameModel, AtkMs901mError> {
    if b == f.check_sum {
        Ok(f)
    } else {
        Err(AtkMs901mError::Checksum)
    }
}

/// One transition of the parser on `b`, asked for frames of identifier
/// `id` and type `t`: the next parser and, when `b` is the checksum byte of
/// a frame, the outcome of that frame.
pub open spec fn step(s: ParserModel, b: u8, id: u8, t: u8) -> (
    ParserModel,
    Option<Result<FrameModel, AtkMs901mError>>,
) {
    let f = s.frame;
    match s.state {
        AtkMs901mHandleState::WaitForHeadL => {
            if b == ATK_MS901M_FRAME_HEAD_L {
                (
                    ParserModel {
                        frame: FrameModel { head_l: b, check_sum: b, ..f },
                        state: AtkMs901mHandleState::WaitForHeadH,
                        ..s
                    },
                    None,
                )
            } else {
                (s, None)
            }
        },
        AtkMs901mHandleState::WaitForHeadH => {
            if b == expected_head_h(t) {
                (
                    ParserModel {
                        frame: FrameModel { head_h: b, check_sum: wrap_add(f.check_sum, b), ..f },
                        state: AtkMs901mHandleState::WaitForId,
                        ..s
                    },
                    None,
                )
            } else {
                (initial_parser(), None)
            }
        },
        AtkMs901mHandleState::WaitForId => {
            if wanted_id(b, id, t) {
                (
                    ParserModel {
                        frame: FrameModel { id: b, check_sum: wrap_add(f.check_sum, b), ..f },
                        state: AtkMs901mHandleState::WaitForLen,
                        ..s
                    },
                    None,
                )
            } else {
                (initial_parser(), None)
            }
        },
        AtkMs901mHandleState::WaitForLen => {
            if b > ATK_MS901M_FRAME_DAT_MAX_SIZE {
                (initial_parser(), None)
            } else {
                (
                    ParserModel {
                        frame: FrameModel {
                            len: b,
                            check_sum: wrap_add(f.check_sum, b),
                            dat: zero_data(),
                            ..f
                        },
                        state: if b == 0 {
                            AtkMs901mHandleState::WaitForSum
                        } else {
                            AtkMs901mHandleState::WaitForDat
                        },
                        dat_index: 0,
                    },
                    None,
                )
            }
        },
        AtkMs901mHandleState::WaitForDat => {
            if s.dat_index < f.len && s.dat_index < ATK_MS901M_FRAME_DAT_MAX_SIZE {
                (
                    ParserModel {
                        frame: FrameModel {
                            dat: f.dat.update(s.dat_index as int, b),
                            check_sum: wrap_add(f.check_sum, b),
                            ..f
                        },
                        state: if s.dat_index + 1 == f.len {
                            AtkMs901mHandleState::WaitForSum
                        } else {
                            AtkMs901mHandleState::WaitForDat
                        },
                        dat_index: s.dat_index + 1,
                    },
                    None,
                )
            } else {
                (initial_parser(), None)
            }
        },
        AtkMs901mHandleState::WaitForSum => (initial_parser(), Some(frame_outcome(f, b))),
    }
}

/// A frame the parser can hand out when asked for identifier `id` and type
/// `t`: the header of that type, that identifier, a length of at most 28,
/// zeros in the data field past the length, and a checksum over header,
/// identifier, length and data.
pub open spec fn valid_frame(f: FrameModel, id: u8, t: u8) -> bool {
    &&& f.head_l == ATK_MS901M_FRAME_HEAD_L
    &&& f.head_h == expected_head_h(t)
    &&& wanted_id(f.id, id, t)
    &&& f.len <= ATK_MS901M_FRAME_DAT_MAX_SIZE
    &&& f.dat.len() == ATK_MS901M_FRAME_DAT_MAX_SIZE
    &&& forall|j: int| f.len <= j < ATK_MS901M_FRAME_DAT_MAX_SIZE ==> #[trigger] f.dat[j] == 0
    &&& f.check_sum == frame_checksum(f)
}

/// The states the parser asked for `id` and `t` can reach from its initial
/// state: in each, the fields received so far hold the bytes received, the
/// others are zero, the data index stays within the announced length
/// (equal to it once the data is complete), and the checksum field is the
/// checksum of the frame assembled so far.
pub open spec fn parser_wf(s: ParserModel, id: u8, t: u8) -> bool {
    let f = s.frame;
    &&& f.dat.len() == ATK_MS901M_FRAME_DAT_MAX_SIZE
    &&& f.check_sum == frame_checksum(f)
    &&& match s.state {
        AtkMs901mHandleState::WaitForHeadL => f == zero_frame() && s.dat_index == 0,
        AtkMs901mHandleState::WaitForHeadH => {
            &&& f.head_l == ATK_MS901M_FRAME_HEAD_L
            &&& f.head_h == 0 && f.id == 0 && f.len == 0
            &&& f.dat == zero_data()
            &&& s.dat_index == 0
        },
        AtkMs901mHandleState::WaitForId => {
            &&& f.head_l == ATK_MS901M_FRAME_HEAD_L
            &&& f.head_h == expected_head_h(t)
            &&& f.id == 0 && f.len == 0
            &&& f.dat == zero_data()
            &&& s.dat_index == 0
        },
        AtkMs901mHandleState::WaitForLen => {
            &&& f.head_l == ATK_MS901M_FRAME_HEAD_L
            &&& f.head_h == expected_head_h(t)
            &&& wanted_id(f.id, id, t)
            &&& f.len == 0
            &&& f.dat == zero_data()
            &&& s.dat_index == 0
        },
        AtkMs901mHandleState::WaitForDat => {
            &&& f.head_l == ATK_MS901M_FRAME_HEAD_L
            &&& f.head_h == expected_head_h(t)
            &&& wanted_id(f.id, id, t)
            &&& 1 <= f.len <= ATK_MS901M_FRAME_DAT_MAX_SIZE
            &&& s.dat_index < f.len
            &&& forall|j: int| s.dat_index <= j < ATK_MS901M_FRAME_DAT_MAX_SIZE ==> #[trigger] f.dat[j] == 0
        },
        AtkMs901mHandleState::WaitForSum => valid_frame(f, id, t) && s.dat_index == f.len,
    }
}

/// The sum of the all-zero data field is 0.
proof fn lemma_byte_sum_zero(n: nat)
    ensures
        byte_sum(Seq::new(n, |i: int| 0u8)) == 0,
    decreases n,
{
    if n > 0 {
        assert(Seq::new(n, |i: int| 0u8).drop_last() =~= Seq::new((n - 1) as nat, |i: int| 0u8));
        lemma_byte_sum_zero((n - 1) as nat);
    }
}

/// A sum of bytes is never negative.
proof fn lemma_byte_sum_nonneg(s: Seq<u8>)
    ensures
        byte_sum(s) >= 0,
    decreases s.len(),
{
    if s.len() > 0 {
        lemma_byte_sum_nonneg(s.drop_last());
    }
}

/// Replacing one byte changes the sum by the difference.
proof fn lemma_byte_sum_update(s: Seq<u8>, i: int, b: u8)
    requires
        0 <= i < s.len(),
    ensures
        byte_sum(s.update(i, b)) == byte_sum(s) - s[i] + b,
    decreases s.len(),
{
    if i == s.len() - 1 {
        assert(s.update(i, b).drop_last() =~= s.drop_last());
    } else {
        assert(s.update(i, b).drop_last() =~= s.drop_last().update(i, b));
        lemma_byte_sum_update(s.drop_last(), i, b);
    }
}

/// Adding a byte to a checksum modulo 256.
proof fn lemma_wrap_add_mod(x: int, b: u8)
    requires
        x >= 0,
    ensures
        wrap_add((x % 256) as u8, b) == ((x + b) % 256) as u8,
{
    vstd::arithmetic::div_mod::lemma_add_mod_noop(x, b as int, 256);
    vstd::arithmetic::div_mod::lemma_mod_twice(b as int, 256);
}

/// A sum of bytes that are zero past `k` is the sum of the first `k`.
proof fn lemma_byte_sum_take(s: Seq<u8>, k: int)
    requires
        0 <= k <= s.len(),
        forall|j: int| k <= j < s.len() ==> #[trigger] s[j] == 0,
    ensures
        byte_sum(s) == byte_sum(s.take(k)),
    decreases s.len(),
{
    if s.len() == k {
        assert(s.take(k) =~= s);
    } else {
        assert(s.drop_last().take(k) =~= s.take(k));
        assert(s.last() == s[s.len() - 1]);
        lemma_byte_sum_take(s.drop_last(), k);
    }
}

/// The initial parser is well formed.
pub proof fn lemma_initial_parser_wf(id: u8, t: u8)
    ensures
        parser_wf(initial_parser(), id, t),
{
    lemma_byte_sum_zero(ATK_MS901M_FRAME_DAT_MAX_SIZE as nat);
}

/// Every transition keeps the parser well formed; a transition hands out a
/// result exactly when it starts from the checksum state, and every frame
/// the parser hands out from a well-formed state is a valid frame of the
/// identifier and type asked for.
pub proof fn lemma_step_preserves_wf(s: ParserModel, b: u8, id: u8, t: u8)
    requires
        parser_wf(s, id, t),
    ensures
        parser_wf(step(s, b, id, t).0, id, t),
        step(s, b, id, t).1.is_some() <==> s.state == AtkMs901mHandleState::WaitForSum,
        step(s, b, id, t).1 matches Some(Ok(f)) ==> valid_frame(f, id, t),
{
    lemma_initial_parser_wf(id, t);
    lemma_byte_sum_zero(ATK_MS901M_FRAME_DAT_MAX_SIZE as nat);
    let f = s.frame;
    let x = f.head_l + f.head_h + f.id + f.len + byte_sum(f.dat);
    lemma_byte_sum_nonneg(f.dat);
    match s.state {
        AtkMs901mHandleState::WaitForDat => {
            if s.dat_index < f.len && s.dat_index < ATK_MS901M_FRAME_DAT_MAX_SIZE {
                lemma_byte_sum_update(f.dat, s.dat_index as int, b);
                lemma_wrap_add_mod(x, b);
                let nd = f.dat.update(s.dat_index as int, b);
                assert(byte_sum(nd) == byte_sum(f.dat) + b);
                assert forall|j: int| s.dat_index + 1 <= j < ATK_MS901M_FRAME_DAT_MAX_SIZE implies #[trigger] nd[j] == 0 by {
                    assert(nd[j] == f.dat[j]);
                }
            }
        },
        AtkMs901mHandleState::WaitForSum => {},
        _ => {
            lemma_wrap_add_mod(x, b);
        },
    }
}

/// The parser after taking every byte of `bytes` in turn, asked for `id`
/// and `t` throughout.
pub open spec fn run(s: ParserModel, bytes: Seq<u8>, id: u8, t: u8) -> ParserModel
    decreases bytes.len(),
{
    if bytes.len() == 0 {
        s
    } else {
        run(step(s, bytes[0], id, t).0, bytes.drop_first(), id, t)
    }
}

/// Feeding any bytes to a well-formed parser leaves it well formed.
proof fn lemma_run_preserves_wf(s: ParserModel, bytes: Seq<u8>, id: u8, t: u8)
    requires
        parser_wf(s, id, t),
    ensures
        parser_wf(run(s, bytes, id, t), id, t),
    decreases bytes.len(),
{
    if bytes.len() > 0 {
        lemma_step_preserves_wf(s, bytes[0], id, t);
        lemma_run_preserves_wf(step(s, bytes[0], id, t).0, bytes.drop_first(), id, t);
    }
}

/// Whatever bytes a new parser takes: waiting for a header it is the new
/// parser; while taking data or waiting for the checksum its data index is
/// within the announced length, itself at most 28; and once a header byte
/// is taken its checksum field is the sum, modulo 256, of the header,
/// identifier, length and data bytes taken so far.
pub proof fn lemma_run_invariant(bytes: Seq<u8>, id: u8, t: u8)
    ensures
        ({
            let r = run(initial_parser(), bytes, id, t);
            &&& r.state == AtkMs901mHandleState::WaitForHeadL ==> r == initial_parser()
            &&& (r.state == AtkMs901mHandleState::WaitForDat || r.state
                == AtkMs901mHandleState::WaitForSum) ==> r.dat_index <= r.frame.len
                <= ATK_MS901M_FRAME_DAT_MAX_SIZE
            &&& r.state != AtkMs901mHandleState::WaitForHeadL ==> r.frame.check_sum == ((r.frame.head_l
                + r.frame.head_h + r.frame.id + r.frame.len + byte_sum(
                r.frame.dat.take(r.dat_index as int),
            )) % 256) as u8
        }),
{
    lemma_initial_parser_wf(id, t);
    lemma_run_preserves_wf(initial_parser(), bytes, id, t);
    let r = run(initial_parser(), bytes, id, t);
    let f = r.frame;
    if r.state == AtkMs901mHandleState::WaitForHeadL {
        assert(r.frame =~= zero_frame());
    } else if r.state == AtkMs901mHandleState::WaitForDat || r.state
        == AtkMs901mHandleState::WaitForSum {
        lemma_byte_sum_take(f.dat, r.dat_index as int);
    } else {
        assert forall|j: int| 0 <= j < f.dat.len() implies #[trigger] f.dat[j] == 0 by {
            assert(f.dat == zero_data());
        }
        lemma_byte_sum_take(f.dat, 0);
    }
}

/// Feeds `bytes` to the parser until a checksum byte ends a frame: the
/// parser after the last byte consumed and, when a frame ended, its outcome
/// with the number of bytes consumed up to and including its checksum byte.
pub open spec fn scan(s: ParserModel, bytes: Seq<u8>, id: u8, t: u8) -> (
    ParserModel,
    Option<(Result<FrameModel, AtkMs901mError>, nat)>,
)
    decreases bytes.len(),
{
    if bytes.len() == 0 {
        (s, None)
    } else {
        let (s1, out) = step(s, bytes[0], id, t);
        match out {
            Some(o) => (s1, Some((o, 1nat))),
            None => {
                let (s2, rest) = scan(s1, bytes.drop_first(), id, t);
                (
                    s2,
                    match rest {
                        Some((g, k)) => Some((g, k + 1)),
                        None => None,
                    },
                )
            },
        }
    }
}

/// The outcome a scan reports, without the count of bytes consumed.
pub open spec fn scan_outcome(
    r: (ParserModel, Option<(Result<FrameModel, AtkMs901mError>, nat)>),
) -> Option<Result<FrameModel, AtkMs901mError>> {
    match r.1 {
        Some((o, _)) => Some(o),
        None => None,
    }
}

/// Scanning from a well-formed parser leaves it well formed, and a frame
/// it hands out is a valid frame of the identifier and type asked for.
pub proof fn lemma_scan_keeps_wf(s: ParserModel, bytes: Seq<u8>, id: u8, t: u8)
    requires
        parser_wf(s, id, t),
    ensures
        parser_wf(scan(s, bytes, id, t).0, id, t),
        scan_outcome(scan(s, bytes, id, t)) matches Some(Ok(f)) ==> valid_frame(f, id, t),
    decreases bytes.len(),
{
    if bytes.len() > 0 {
        lemma_step_preserves_wf(s, bytes[0], id, t);
        if step(s, bytes[0], id, t).1.is_none() {
            lemma_scan_keeps_wf(step(s, bytes[0], id, t).0, bytes.drop_first(), id, t);
        }
    }
}

/// The bytes of frame `f` on the wire, closed by the checksum byte `last`:
/// header, identifier, length, then as many data bytes as the length
/// announces.
pub open spec fn wire_frame(f: FrameModel, last: u8) -> Seq<u8> {
    seq![f.head_l, f.head_h, f.id, f.len] + f.dat.subrange(0, f.len as int) + seq![last]
}

/// The data field of `f` with only its first `k` bytes received.
pub open spec fn partial_data(f: FrameModel, k: int) -> Seq<u8> {
    Seq::new(ATK_MS901M_FRAME_DAT_MAX_SIZE as nat, |j: int| if j < k { f.dat[j] } else { 0u8 })
}

/// The parser in the middle of the data field of `f`, `k` bytes received.
pub open spec fn mid_data(f: FrameModel, k: nat) -> ParserModel {
    let g = FrameModel { dat: partial_data(f, k as int), ..f };
    ParserModel {
        frame: FrameModel { check_sum: frame_checksum(g), ..g },
        state: AtkMs901mHandleState::WaitForDat,
        dat_index: k,
    }
}

/// Receiving the rest of the data field and the checksum byte ends the
/// frame `f`.
proof fn lemma_scan_data(f: FrameModel, k: nat, last: u8, rest: Seq<u8>, id: u8, t: u8)
    requires
        valid_frame(f, id, t),
        k < f.len,
    ensures
        scan(mid_data(f, k), f.dat.subrange(k as int, f.len as int) + seq![last] + rest, id, t)
            == (initial_parser(), Some((frame_outcome(f, last), (f.len - k + 1) as nat))),
    decreases f.len - k,
{
    let s = mid_data(f, k);
    let bytes = f.dat.subrange(k as int, f.len as int) + seq![last] + rest;
    let b = f.dat[k as int];
    assert(bytes[0] == b);
    let g = FrameModel { dat: partial_data(f, k as int), ..f };
    let g1 = FrameModel { dat: partial_data(f, k + 1int), ..f };
    assert(g.dat.update(k as int, b) =~= g1.dat);
    lemma_byte_sum_update(g.dat, k as int, b);
    lemma_byte_sum_nonneg(g.dat);
    lemma_wrap_add_mod(g.head_l + g.head_h + g.id + g.len + byte_sum(g.dat), b);
    let s1 = step(s, b, id, t).0;
    assert(step(s, b, id, t).1.is_none());
    if k + 1 < f.len {
        assert(s1 == mid_data(f, k + 1));
        assert(bytes.drop_first() =~= f.dat.subrange(k + 1int, f.len as int) + seq![last] + rest);
        lemma_scan_data(f, k + 1, last, rest, id, t);
    } else {
        assert(g1.dat =~= f.dat);
        assert(g1 == f);
        assert(s1 == ParserModel {
            frame: f,
            state: AtkMs901mHandleState::WaitForSum,
            dat_index: f.len as nat,
        });
        let bytes1 = bytes.drop_first();
        assert(bytes1[0] == last);
        assert(step(s1, last, id, t) == (initial_parser(), Some(frame_outcome(f, last))));
        assert(scan(s1, bytes1, id, t) == (initial_parser(), Some((frame_outcome(f, last), 1nat))));
    }
}

/// Frame framing: from its initial state, the parser asked for `id` and
/// `t` reads the wire bytes of any valid frame of that identifier and type,
/// whatever follows, up to and including the checksum byte, and is back in
/// its initial state; the frame is returned when the checksum byte matches
/// it and is a `Checksum` error otherwise.
pub proof fn lemma_wire_frame_parses(f: FrameModel, last: u8, rest: Seq<u8>, id: u8, t: u8)
    requires
        valid_frame(f, id, t),
    ensures
        scan(initial_parser(), wire_frame(f, last) + rest, id, t) == (
            initial_parser(),
            Some((frame_outcome(f, last), wire_frame(f, last).len())),
        ),
{
    lemma_byte_sum_zero(ATK_MS901M_FRAME_DAT_MAX_SIZE as nat);
    lemma_byte_sum_nonneg(f.dat);
    let bytes = wire_frame(f, last) + rest;
    let s0 = initial_parser();
    let h = ATK_MS901M_FRAME_HEAD_L;
    let o = frame_outcome(f, last);
    let n = f.len as nat;
    assert(wire_frame(f, last).len() == n + 5);
    // header, high header, identifier, length
    assert(bytes[0] == h);
    let s1 = step(s0, h, id, t).0;
    let b1 = bytes.drop_first();
    assert(b1[0] == f.head_h);
    let s2 = step(s1, f.head_h, id, t).0;
    let b2 = b1.drop_first();
    assert(b2[0] == f.id);
    let s3 = step(s2, f.id, id, t).0;
    let b3 = b2.drop_first();
    assert(b3[0] == f.len);
    let s4 = step(s3, f.len, id, t).0;
    let b4 = b3.drop_first();
    lemma_wrap_add_mod(h as int, f.head_h);
    lemma_wrap_add_mod(h + f.head_h, f.id);
    lemma_wrap_add_mod(h + f.head_h + f.id, f.len);
    if f.len == 0 {
        assert(zero_data() =~= f.dat);
        assert(s4.frame == f);
        assert(s4.state == AtkMs901mHandleState::WaitForSum);
        assert(b4[0] == last);
        assert(step(s4, last, id, t) == (s0, Some(o)));
        assert(scan(s4, b4, id, t) == (s0, Some((o, 1nat))));
    } else {
        assert(partial_data(f, 0) =~= zero_data());
        assert(s4 == mid_data(f, 0));
        assert(b4 =~= f.dat.subrange(0, f.len as int) + seq![last] + rest);
        lemma_scan_data(f, 0, last, rest, id, t);
        assert(scan(s4, b4, id, t) == (s0, Some((o, n + 1))));
    }
    assert(scan(s3, b3, id, t) == (s0, Some((o, n + 2))));
    assert(scan(s2, b2, id, t) == (s0, Some((o, n + 3))));
    assert(scan(s1, b1, id, t) == (s0, Some((o, n + 4))));
    assert(scan(s0, bytes, id, t) == (s0, Some((o, n + 5))));
}

/// Skipping: from its initial state, the parser asked for `id` and `t`
/// drops a frame of type `t` but of another identifier at its identifier
/// byte, having handed out nothing.
pub proof fn lemma_other_id_is_dropped(f: FrameModel, id: u8, t: u8)
    requires
        f.head_l == ATK_MS901M_FRAME_HEAD_L,
        f.head_h == expected_head_h(t),
        f.id != id,
    ensures
        run(initial_parser(), seq![f.head_l, f.head_h, f.id], id, t) == initial_parser(),
        scan(initial_parser(), seq![f.head_l, f.head_h, f.id], id, t).1.is_none(),
{
    let bytes = seq![f.head_l, f.head_h, f.id];
    let s0 = initial_parser();
    let s1 = step(s0, f.head_l, id, t).0;
    let b1 = bytes.drop_first();
    assert(b1 =~= seq![f.head_h, f.id]);
    let s2 = step(s1, f.head_h, id, t).0;
    let b2 = b1.drop_first();
    assert(b2 =~= seq![f.id]);
    let s3 = step(s2, f.id, id, t).0;
    let b3 = b2.drop_first();
    assert(b3 =~= Seq::<u8>::empty());
    assert(s3 == s0);
    assert(run(s3, b3, id, t) == s0);
    assert(run(s2, b2, id, t) == s0);
    assert(run(s1, b1, id, t) == s0);
    assert(scan(s3, b3, id, t).1.is_none());
    assert(scan(s2, b2, id, t).1.is_none());
    assert(scan(s1, b1, id, t).1.is_none());
}

/// Skipping: from its initial state, the parser asked for type `t` drops
/// a frame whose high header byte is that of another type, having handed
/// out nothing.
pub proof fn lemma_other_type_is_dropped(head_h: u8, id: u8, t: u8)
    requires
        head_h != expected_head_h(t),
    ensures
        run(initial_parser(), seq![ATK_MS901M_FRAME_HEAD_L, head_h], id, t) == initial_parser(),
        scan(initial_parser(), seq![ATK_MS901M_FRAME_HEAD_L, head_h], id, t).1.is_none(),
{
    let bytes = seq![ATK_MS901M_FRAME_HEAD_L, head_h];
    let s0 = initial_parser();
    let s1 = step(s0, ATK_MS901M_FRAME_HEAD_L, id, t).0;
    let b1 = bytes.drop_first();
    assert(b1 =~= seq![head_h]);
    let b2 = b1.drop_first();
    assert(b2 =~= Seq::<u8>::empty());
    assert(step(s1, head_h, id, t) == (s0, None::<Result<FrameModel, AtkMs901mError>>));
    assert(run(s0, b2, id, t) == s0);
    assert(run(s1, b1, id, t) == s0);
    assert(scan(s0, b2, id, t).1.is_none());
    assert(scan(s1, b1, id, t).1.is_none());
}

/// A scan outcome with `n` more bytes counted as consumed.
pub open spec fn offset_scan(
    r: (ParserModel, Option<(Result<FrameModel, AtkMs901mError>, nat)>),
    n: nat,
) -> (ParserModel, Option<(Result<FrameModel, AtkMs901mError>, nat)>) {
    (
        r.0,
        match r.1 {
            Some((f, k)) => Some((f, k + n)),
            None => None,
        },
    )
}

/// Scanning past a byte that ends no frame.
proof fn lemma_scan_skip(s: ParserModel, bytes: Seq<u8>, i: int, id: u8, t: u8)
    requires
        0 <= i < bytes.len(),
        step(s, bytes[i], id, t).1.is_none(),
    ensures
        scan(s, bytes.skip(i), id, t) == offset_scan(
            scan(step(s, bytes[i], id, t).0, bytes.skip(i + 1), id, t),
            1,
        ),
{
    assert(bytes.skip(i)[0] == bytes[i]);
    assert(bytes.skip(i).drop_first() =~= bytes.skip(i + 1));
}

/// Resynchronisation: while waiting for a header, bytes other than the
/// header byte are skipped without leaving the initial state.
pub proof fn lemma_noise_is_skipped(bytes: Seq<u8>, id: u8, t: u8)
    requires
        forall|i: int| 0 <= i < bytes.len() ==> bytes[i] != ATK_MS901M_FRAME_HEAD_L,
    ensures
        scan(initial_parser(), bytes, id, t) == (
            initial_parser(),
            None::<(Result<FrameModel, AtkMs901mError>, nat)>,
        ),
    decreases bytes.len(),
{
    if bytes.len() > 0 {
        let rest = bytes.drop_first();
        assert forall|i: int| 0 <= i < rest.len() implies rest[i] != ATK_MS901M_FRAME_HEAD_L by {
            assert(rest[i] == bytes[i + 1]);
        }
        lemma_noise_is_skipped(rest, id, t);
    }
}

/// The model of what `process_byte` or `process_bytes` returns.
pub open spec fn outcome_model(r: Option<Result<AtkMs901mFrame, AtkMs901mError>>) -> Option<
    Result<FrameModel, AtkMs901mError>,
> {
    match r {
        Some(Ok(f)) => Some(Ok(f@)),
        Some(Err(e)) => Some(Err(e)),
        None => None,
    }
}

impl FrameStateMachine {
    /// A parser waiting for a header, with an all-zero frame.
    pub fn new() -> (r: Self)
        ensures
            r@ == initial_parser(),
    {
        let r = Self {
            frame: AtkMs901mFrame::default(),
            state: AtkMs901mHandleState::WaitForHeadL,
            dat_index: 0,
        };
        assert(r.frame@.dat =~= zero_data());
        r
    }

    /// Feeds one byte to the parser asked for frames of identifier `id` and
    /// type `frame_type`. When `byte` is the checksum byte of such a frame,
    /// returns the frame if the checksum matches and a `Checksum` error
    /// otherwise; returns `None` for every other byte.
    pub fn process_byte(&mut self, byte: u8, id: u8, frame_type: u8) -> (r: Option<
        Result<AtkMs901mFrame, AtkMs901mError>,
    >)
        ensures
            final(self)@ == step(old(self)@, byte, id, frame_type).0,
            outcome_model(r) == step(old(self)@, byte, id, frame_type).1,
    {
        match self.state {
            AtkMs901mHandleState::WaitForHeadL => {
                if byte == ATK_MS901M_FRAME_HEAD_L {
                    self.frame.head_l = byte;
                    self.frame.check_sum = byte;
                    self.state = AtkMs901mHandleState::WaitForHeadH;
                }
            },
            AtkMs901mHandleState::WaitForHeadH => {
                let head_h = if frame_type == ATK_MS901M_FRAME_ID_TYPE_UPLOAD {
                    ATK_MS901M_FRAME_HEAD_UPLOAD_H
                } else {
                    ATK_MS901M_FRAME_HEAD_ACK_H
                };
                if byte == head_h {
                    self.frame.head_h = byte;
                    self.frame.check_sum = self.frame.check_sum.wrapping_add(byte);
                    self.state = AtkMs901mHandleState::WaitForId;
                } else {
                    self.reset();
                }
            },
            AtkMs901mHandleState::WaitForId => {
                let upload_id = byte >= AtkMs901mFrameUploadId::Attitude.code() && byte
                    <= AtkMs901mFrameUploadId::Port.code();
                if byte == id && (frame_type != ATK_MS901M_FRAME_ID_TYPE_UPLOAD || upload_id) {
                    self.frame.id = byte;
                    self.frame.check_sum = self.frame.check_sum.wrapping_add(byte);
                    self.state = AtkMs901mHandleState::WaitForLen;
                } else {
                    self.reset();
                }
            },
            AtkMs901mHandleState::WaitForLen => {
                if byte as usize > ATK_MS901M_FRAME_DAT_MAX_SIZE {
                    self.reset();
                } else {
                    self.frame.len = byte;
                    self.frame.check_sum = self.frame.check_sum.wrapping_add(byte);
                    self.frame.dat = [0u8; 28];
                    self.dat_index = 0;
                    self.state = if byte == 0 {
                        AtkMs901mHandleState::WaitForSum
                    } else {
                        AtkMs901mHandleState::WaitForDat
                    };
                    assert(self.frame.dat@ =~= zero_data());
                }
            },
            AtkMs901mHandleState::WaitForDat => {
                if self.dat_index < self.frame.len as usize && self.dat_index
                    < self.frame.dat.len() {
                    self.frame.dat[self.dat_index] = byte;
                    self.frame.check_sum = self.frame.check_sum.wrapping_add(byte);
                    self.dat_index += 1;
                    if self.dat_index == self.frame.len as usize {
                        self.state = AtkMs901mHandleState::WaitForSum;
                    }
                } else {
                    self.reset();
                }
            },
            AtkMs901mHandleState::WaitForSum => {
                let result = if byte == self.frame.check_sum {
                    Ok(self.frame)
                } else {
                    Err(AtkMs901mError::Checksum)
                };
                self.reset();
                return Some(result);
            },
        }
        None
    }

    /// Feeds the bytes of `bytes` in order, asked for identifier `id` and
    /// type `frame_type`, until a checksum byte ends a frame, and returns
    /// that frame's outcome; the bytes after it are not consumed. Returns
    /// `None` when no byte of `bytes` ends a frame.
    pub fn process_bytes(&mut self, bytes: &[u8], id: u8, frame_type: u8) -> (r: Option<
        Result<AtkMs901mFrame, AtkMs901mError>,
    >)
        ensures
            final(self)@ == scan(old(self)@, bytes@, id, frame_type).0,
            outcome_model(r) == scan_outcome(scan(old(self)@, bytes@, id, frame_type)),
    {
        let ghost s0 = self@;
        let mut i: usize = 0;
        assert(bytes@.skip(0) =~= bytes@);
        assert(scan(s0, bytes@, id, frame_type) == offset_scan(
            scan(self@, bytes@.skip(0), id, frame_type),
            0,
        ));
        while i < bytes.len()
            invariant
                i <= bytes@.len(),
                s0 == old(self)@,
                scan(s0, bytes@, id, frame_type) == offset_scan(
                    scan(self@, bytes@.skip(i as int), id, frame_type),
                    i as nat,
                ),
            decreases bytes@.len() - i,
        {
            let ghost before = self@;
            let byte = bytes[i];
            let out = self.process_byte(byte, id, frame_type);
            if out.is_some() {
                assert(bytes@.skip(i as int)[0] == byte);
                assert(bytes@.skip(i as int).len() > 0);
                assert(scan(before, bytes@.skip(i as int), id, frame_type).0 == self@);
                assert(scan_outcome(scan(before, bytes@.skip(i as int), id, frame_type)) == step(
                    before,
                    byte,
                    id,
                    frame_type,
                ).1);
                return out;
            }
            proof {
                lemma_scan_skip(before, bytes@, i as int, id, frame_type);
            }
            i = i + 1;
        }
        assert(bytes@.skip(i as int) =~= Seq::<u8>::empty());
        None
    }

    /// Returns the parser to its initial state.
    pub fn reset(&mut self)
        ensures
            final(self)@ == initial_parser(),
    {
        *self = Self::new();
    }
}

} // verus!
