//! Properties that tie the frame codec, segmentation and reassembly together.

use vstd::prelude::*;
use crate::isotp::common::{FlowControlState, st_min_reserved};
use crate::isotp::error::IsoTpErrorView;
use crate::isotp::frame::{
    FrameView, spec_decode, spec_encode, spec_from_data, spec_segments, spec_consecutive_count,
    spec_consecutive_chunk, pad_byte, be_u32,
};
use crate::isotp::reassembly::{
    ConsecutiveView, EventView, spec_append, spec_update, spec_consecutive_empty, spec_next_sequence,
};
use crate::isotp::bytes_util::resized;
use crate::isotp::transfer::{TransferView, ReactionView, spec_on_frame, spec_default_flow_ctrl_bytes};

verus! {

/// Frames that their encoding carries whole: a single frame of 1 to 7 bytes, a
/// first frame with a non-zero length, a consecutive frame with a 4-bit
/// sequence number and at most 7 bytes, a flow control frame with a valid
/// separation time.
pub open spec fn frame_fits(f: FrameView) -> bool {
    match f {
        FrameView::Single(data) => 1 <= data.len() <= 7,
        FrameView::First(length, _) => length > 0,
        FrameView::Consecutive(sequence, data) => sequence < 16 && data.len() <= 7,
        FrameView::FlowControl { st_min, .. } => !st_min_reserved(st_min),
    }
}

/// What decoding an encoded frame gives back: the frame itself, except that a
/// consecutive frame comes back with its padding.
pub open spec fn spec_decoded_back(f: FrameView, padding: Option<u8>) -> FrameView {
    match f {
        FrameView::Consecutive(sequence, data) => FrameView::Consecutive(sequence, resized(data, 7, pad_byte(padding))),
        _ => f,
    }
}

/// Decoding inverts encoding: a frame that fits decodes from its encoding to
/// itself (a consecutive frame together with its padding).
pub proof fn decode_encode_roundtrip(f: FrameView, padding: Option<u8>)
    requires
        frame_fits(f),
    ensures
        spec_decode(spec_encode(f, padding)) == Ok::<FrameView, IsoTpErrorView>(spec_decoded_back(f, padding)),
{
    let pad = pad_byte(padding);
    match f {
        FrameView::Single(data) => {
            let e = spec_encode(f, padding);
            let head = seq![data.len() as u8];
            assert(e =~= resized(head + data, 8, pad));
            assert(e.len() == 8);
            assert(e[0] == data.len() as u8);
            assert((data.len() as u8) % 16 == data.len());
            assert(e.subrange(1, 1 + data.len() as int) =~= data);
        },
        FrameView::First(length, data) => {
            let e = spec_encode(f, padding);
            if length > 0x0FFF {
                assert(e[0] == 0x10u8);
                assert(e[1] == 0x00u8);
                let (b0, b1, b2, b3) = (e[2], e[3], e[4], e[5]);
                assert(b0 == (length / 0x100_0000) as u8);
                assert(be_u32(b0, b1, b2, b3) == length) by {
                    assert(be_u32(
                        (length / 0x100_0000) as u8,
                        ((length / 0x1_0000) % 256) as u8,
                        ((length / 0x100) % 256) as u8,
                        (length % 256) as u8,
                    ) == length) by (nonlinear_arith);
                }
                assert(e.skip(6) =~= data);
            } else {
                assert(e[0] == (0x10 + length / 256) as u8);
                assert(e.skip(2) =~= data);
                assert((0x10 + length / 256) as u8 % 16 == length / 256);
            }
        },
        FrameView::Consecutive(sequence, data) => {
            let e = spec_encode(f, padding);
            assert(0x20u8 | sequence == 0x20 + sequence) by (bit_vector) requires sequence < 16;
            assert(e =~= resized(seq![0x20u8 | sequence] + data, 8, pad));
            assert(e.skip(1) =~= resized(data, 7, pad));
        },
        FrameView::FlowControl { state, block_size, st_min } => {
            let e = spec_encode(f, padding);
            let s = state.spec_to_u8();
            assert(0x30u8 | s == 0x30 + s) by (bit_vector) requires s < 3;
            assert(e =~= resized(seq![0x30u8 | s, block_size, st_min], 8, pad));
            assert(FlowControlState::spec_from_u8(s) == Some(state));
        },
    }
}

/// Every frame that segmentation produces fits, and its encoding takes exactly
/// one classical CAN frame (8 bytes).
pub proof fn segments_fit_can_frames(data: Seq<u8>, padding: Option<u8>, i: int)
    requires
        spec_from_data(data) is Ok,
        0 <= i < spec_from_data(data)->Ok_0.len(),
    ensures
        frame_fits(spec_from_data(data)->Ok_0[i]),
        spec_encode(spec_from_data(data)->Ok_0[i], padding).len() == 8,
{
    let frames = spec_from_data(data)->Ok_0;
    if data.len() > 7 {
        let ff: nat = if data.len() <= 0x0FFF { 6 } else { 2 };
        assert(frames == spec_segments(data, ff));
        if i > 0 {
            let k = i - 1;
            let chunk = spec_consecutive_chunk(data, ff, k);
            assert(k < spec_consecutive_count(data.len(), ff));
            assert(ff + 7 * k < data.len()) by (nonlinear_arith)
                requires
                    k < (data.len() - ff + 6) / 7,
                    ff < data.len(),
            ;
            assert(chunk.len() <= 7);
            assert((i % 16) < 16);
        } else {
            assert(data.len() as u32 > 0);
        }
    }
}

/// The reassembly context after the first frame of `data` and `k` of its
/// consecutive frames, none of which completed the message.
pub open spec fn spec_partial(data: Seq<u8>, first_size: nat, k: int) -> ConsecutiveView {
    ConsecutiveView {
        sequence: if k == 0 { None } else { Some((k % 16) as u8) },
        length: Some(data.len() as u32),
        buffer: data.take(first_size + 7 * k),
    }
}

/// Feeds consecutive frames to the reassembly context, in order; the final
/// context and what each frame reported.
pub open spec fn spec_receive_all(c: ConsecutiveView, frames: Seq<FrameView>) -> (ConsecutiveView, Seq<Result<EventView, IsoTpErrorView>>)
    decreases frames.len(),
{
    if frames.len() == 0 {
        (c, Seq::empty())
    } else {
        let (c1, outs) = spec_receive_all(c, frames.drop_last());
        let (c2, o) = match frames.last() {
            FrameView::Consecutive(s, d) => spec_append(c1, s, d),
            _ => (c1, Err(IsoTpErrorView::MixFramesError)),
        };
        (c2, outs.push(o))
    }
}

proof fn lemma_receive_prefix(data: Seq<u8>, first_size: nat, k: int)
    requires
        first_size == 2 || first_size == 6,
        first_size < data.len() <= 0xFFFF_FFFF,
        0 <= k < spec_consecutive_count(data.len(), first_size),
    ensures
        ({
            let cfs = spec_segments(data, first_size).skip(1);
            let c0 = spec_update(spec_consecutive_empty(), data.len() as u32, data.take(first_size as int));
            let (c, outs) = spec_receive_all(c0, cfs.take(k));
            &&& c == spec_partial(data, first_size, k)
            &&& outs.len() == k
            &&& forall|j: int| 0 <= j < k ==> #[trigger] outs[j] == Ok::<EventView, IsoTpErrorView>(EventView::Wait)
        }),
    decreases k,
{
    let cfs = spec_segments(data, first_size).skip(1);
    let c0 = spec_update(spec_consecutive_empty(), data.len() as u32, data.take(first_size as int));
    let n = spec_consecutive_count(data.len(), first_size);
    if k == 0 {
        assert(cfs.take(0).len() == 0);
        assert(c0.buffer =~= data.take(first_size as int));
        assert(c0 == spec_partial(data, first_size, 0));
    } else {
        lemma_receive_prefix(data, first_size, k - 1);
        assert(cfs.take(k).drop_last() =~= cfs.take(k - 1));
        let prev = spec_partial(data, first_size, k - 1);
        let f = cfs.take(k).last();
        assert(f == FrameView::Consecutive((k % 16) as u8, spec_consecutive_chunk(data, first_size, k - 1)));
        assert(first_size + 7 * k < data.len()) by (nonlinear_arith)
            requires
                k < n,
                n == (data.len() - first_size + 6) / 7,
                first_size < data.len(),
        ;
        assert(spec_next_sequence(prev.sequence) == (k % 16) as u8);
        let chunk = spec_consecutive_chunk(data, first_size, k - 1);
        assert(prev.buffer + chunk =~= data.take(first_size + 7 * k));
    }
}

/// Reassembly inverts segmentation: after the first frame of `data`, feeding
/// its consecutive frames in order reports `Wait` for each but the last, and
/// the whole of `data` for the last.
#[verifier::rlimit(30)]
pub proof fn reassembly_inverts_segmentation(data: Seq<u8>)
    requires
        7 < data.len() <= 0xFFFF_FFFF,
    ensures
        ({
            let frames = spec_from_data(data)->Ok_0;
            let first = frames[0];
            let (c, outs) = spec_receive_all(
                spec_update(spec_consecutive_empty(), first->First_0, first->First_1),
                frames.skip(1),
            );
            &&& spec_from_data(data) is Ok
            &&& first is First
            &&& first->First_0 == data.len()
            &&& outs.len() == frames.len() - 1
            &&& forall|j: int| 0 <= j < outs.len() - 1 ==> #[trigger] outs[j] == Ok::<EventView, IsoTpErrorView>(EventView::Wait)
            &&& outs.last() == Ok::<EventView, IsoTpErrorView>(EventView::DataReceived(data))
        }),
{
    let ff: nat = if data.len() <= 0x0FFF { 6 } else { 2 };
    let frames = spec_from_data(data)->Ok_0;
    assert(frames == spec_segments(data, ff));
    let n = spec_consecutive_count(data.len(), ff);
    let cfs = frames.skip(1);
    assert(n >= 1) by (nonlinear_arith)
        requires
            n == (data.len() - ff + 6) / 7,
            ff < data.len(),
    ;
    lemma_receive_prefix(data, ff, n - 1);
    assert(cfs.take(n as int) =~= cfs);
    assert(cfs.take(n as int).drop_last() =~= cfs.take(n - 1));
    let prev = spec_partial(data, ff, n - 1);
    let chunk = spec_consecutive_chunk(data, ff, n - 1);
    assert(ff + 7 * (n - 1) + 7 >= data.len()) by (nonlinear_arith)
        requires
            n == (data.len() - ff + 6) / 7,
            ff < data.len(),
    ;
    assert(ff + 7 * (n - 1) < data.len()) by (nonlinear_arith)
        requires
            n == (data.len() - ff + 6) / 7,
            ff < data.len(),
    ;
    assert(prev.buffer + chunk =~= data);
    assert(data.take(data.len() as int) =~= data);
    assert(frames[0] == FrameView::First(data.len() as u32, data.take(ff as int)));
}

/// The data bytes a frame carries; a flow control frame carries none.
pub open spec fn frame_payload(f: FrameView) -> Seq<u8> {
    match f {
        FrameView::Single(d) => d,
        FrameView::First(_, d) => d,
        FrameView::Consecutive(_, d) => d,
        FrameView::FlowControl { .. } => Seq::empty(),
    }
}

/// The payloads of frames, concatenated in order.
pub open spec fn joined_payloads(frames: Seq<FrameView>) -> Seq<u8>
    decreases frames.len(),
{
    if frames.len() == 0 {
        Seq::empty()
    } else {
        joined_payloads(frames.drop_last()) + frame_payload(frames.last())
    }
}

proof fn lemma_joined_segment_prefix(data: Seq<u8>, first_size: nat, k: int)
    requires
        first_size == 2 || first_size == 6,
        first_size < data.len() <= 0xFFFF_FFFF,
        0 <= k <= spec_consecutive_count(data.len(), first_size),
    ensures
        joined_payloads(spec_segments(data, first_size).take(k + 1))
            == data.take(if first_size + 7 * k < data.len() { first_size + 7 * k } else { data.len() as int }),
    decreases k,
{
    let segs = spec_segments(data, first_size);
    let n = spec_consecutive_count(data.len(), first_size);
    let prefix = segs.take(k + 1);
    if k == 0 {
        assert(prefix.drop_last() =~= Seq::<FrameView>::empty());
        assert(joined_payloads(prefix.drop_last()) =~= Seq::<u8>::empty());
        assert(prefix.last() == FrameView::First(data.len() as u32, data.take(first_size as int)));
        assert(joined_payloads(prefix) =~= data.take(first_size as int));
    } else {
        lemma_joined_segment_prefix(data, first_size, k - 1);
        assert(prefix.drop_last() =~= segs.take(k));
        assert(prefix.last() == FrameView::Consecutive((k % 16) as u8, spec_consecutive_chunk(data, first_size, k - 1)));
        assert(first_size + 7 * (k - 1) < data.len()) by (nonlinear_arith)
            requires
                1 <= k <= n,
                n == (data.len() - first_size + 6) / 7,
                first_size < data.len(),
        ;
        let end = if first_size + 7 * k < data.len() { first_size + 7 * k } else { data.len() as int };
        assert(data.take(first_size + 7 * (k - 1)) + spec_consecutive_chunk(data, first_size, k - 1) =~= data.take(end));
    }
}

/// Segmentation of a message longer than 7 bytes: frame 0 is a first frame
/// that announces the whole length, frame `i` after it is a consecutive frame
/// with sequence number `i % 16` and at most 7 bytes, and the payloads of all
/// frames, concatenated in order, are the data. A message of 1 to 7 bytes is
/// one single frame that carries it whole.
pub proof fn segmentation_concatenates_to_data(data: Seq<u8>)
    requires
        0 < data.len() <= 0xFFFF_FFFF,
    ensures
        spec_from_data(data) is Ok,
        joined_payloads(spec_from_data(data)->Ok_0) == data,
        data.len() <= 7 ==> spec_from_data(data)->Ok_0 == seq![FrameView::Single(data)],
        data.len() > 7 ==> ({
            let frames = spec_from_data(data)->Ok_0;
            &&& frames.len() >= 2
            &&& frames[0] is First
            &&& frames[0]->First_0 == data.len()
            &&& forall|i: int| 1 <= i < frames.len() ==> (#[trigger] frames[i] matches FrameView::Consecutive(s, d)
                    && s == i % 16 && 1 <= d.len() <= 7)
        }),
{
    let frames = spec_from_data(data)->Ok_0;
    if data.len() <= 7 {
        assert(frames.drop_last() =~= Seq::<FrameView>::empty());
        assert(joined_payloads(frames.drop_last()) =~= Seq::<u8>::empty());
        assert(joined_payloads(frames) =~= data);
    } else {
        let ff: nat = if data.len() <= 0x0FFF { 6 } else { 2 };
        assert(frames == spec_segments(data, ff));
        let n = spec_consecutive_count(data.len(), ff);
        assert(n >= 1 && ff + 7 * n >= data.len()) by (nonlinear_arith)
            requires
                n == (data.len() - ff + 6) / 7,
                ff < data.len(),
        ;
        lemma_joined_segment_prefix(data, ff, n as int);
        assert(frames.take(n + 1int) =~= frames);
        assert(data.take(data.len() as int) =~= data);
        assert forall|i: int| 1 <= i < frames.len() implies (#[trigger] frames[i] matches FrameView::Consecutive(s, d)
            && s == i % 16 && 1 <= d.len() <= 7) by {
            let k = i - 1;
            assert(ff + 7 * k < data.len()) by (nonlinear_arith)
                requires
                    0 <= k < n,
                    n == (data.len() - ff + 6) / 7,
                    ff < data.len(),
            ;
        }
    }
}

/// The bytes of the CAN frames that carry `data`, as a sender writes them.
pub open spec fn spec_sent_frames(data: Seq<u8>, padding: Option<u8>) -> Seq<Seq<u8>> {
    spec_from_data(data)->Ok_0.map_values(|f: FrameView| spec_encode(f, padding))
}

/// Feeds the bytes of CAN frames to a transfer, in order: the final view and
/// each reaction.
pub open spec fn spec_receive_frames(t: TransferView, frames: Seq<Seq<u8>>) -> (TransferView, Seq<ReactionView>)
    decreases frames.len(),
{
    if frames.len() == 0 {
        (t, Seq::empty())
    } else {
        let (t1, reactions) = spec_receive_frames(t, frames.drop_last());
        let (t2, r) = spec_on_frame(t1, frames.last());
        (t2, reactions.push(r))
    }
}

/// A received single frame reports its data and changes nothing.
proof fn lemma_on_single(t: TransferView, bytes: Seq<u8>, d: Seq<u8>)
    requires
        spec_decode(bytes) == Ok::<FrameView, IsoTpErrorView>(FrameView::Single(d)),
    ensures
        spec_on_frame(t, bytes) == (t, ReactionView::Report(EventView::DataReceived(d))),
{
    reveal(spec_on_frame);
}

/// A received first frame records the announced length and its data, and is
/// answered with flow control.
proof fn lemma_on_first(t: TransferView, bytes: Seq<u8>, length: u32, d: Seq<u8>)
    requires
        spec_decode(bytes) == Ok::<FrameView, IsoTpErrorView>(FrameView::First(length, d)),
    ensures
        spec_on_frame(t, bytes).0.consecutive == spec_update(t.consecutive, length, d),
        spec_on_frame(t, bytes).1 == ReactionView::Reply(spec_default_flow_ctrl_bytes()),
{
    reveal(spec_on_frame);
}

/// A received consecutive frame that the reassembly accepts reports what it reports.
proof fn lemma_on_consecutive(t: TransferView, bytes: Seq<u8>, s: u8, d: Seq<u8>)
    requires
        spec_decode(bytes) == Ok::<FrameView, IsoTpErrorView>(FrameView::Consecutive(s, d)),
        spec_append(t.consecutive, s, d).1 is Ok,
    ensures
        spec_on_frame(t, bytes).0.consecutive == spec_append(t.consecutive, s, d).0,
        spec_on_frame(t, bytes).1 == ReactionView::Report(spec_append(t.consecutive, s, d).1->Ok_0),
{
    reveal(spec_on_frame);
}

/// The `k`-th frame a sender writes for a segmented message decodes back to
/// the `k`-th frame of the segmentation, a consecutive frame with its padding.
proof fn lemma_sent_frame_decodes(data: Seq<u8>, padding: Option<u8>, k: int)
    requires
        7 < data.len() <= 0xFFFF_FFFF,
        0 <= k < spec_from_data(data)->Ok_0.len(),
    ensures
        spec_sent_frames(data, padding)[k] == spec_encode(spec_from_data(data)->Ok_0[k], padding),
        spec_decode(spec_sent_frames(data, padding)[k])
            == Ok::<FrameView, IsoTpErrorView>(spec_decoded_back(spec_from_data(data)->Ok_0[k], padding)),
{
    segments_fit_can_frames(data, padding, k);
    decode_encode_roundtrip(spec_from_data(data)->Ok_0[k], padding);
}

/// After the first `k + 1` frames of a segmented message (the first frame and
/// `k` full consecutive frames), the receiver holds `data` up to there, has
/// answered the first frame and reported `Wait` for each consecutive frame.
proof fn lemma_receive_sent_prefix(data: Seq<u8>, ff: nat, padding: Option<u8>, t: TransferView, k: int)
    requires
        ff == (if data.len() <= 0x0FFF { 6nat } else { 2nat }),
        7 < data.len() <= 0xFFFF_FFFF,
        t.consecutive == spec_consecutive_empty(),
        0 <= k < spec_consecutive_count(data.len(), ff),
    ensures
        ({
            let (t2, rs) = spec_receive_frames(t, spec_sent_frames(data, padding).take(k + 1));
            &&& t2.consecutive == spec_partial(data, ff, k)
            &&& rs.len() == k + 1
            &&& rs[0] == ReactionView::Reply(spec_default_flow_ctrl_bytes())
            &&& forall|i: int| 1 <= i <= k ==> #[trigger] rs[i] == ReactionView::Report(EventView::Wait)
        }),
    decreases k,
{
    let frames = spec_from_data(data)->Ok_0;
    let sent = spec_sent_frames(data, padding);
    assert(frames == spec_segments(data, ff));
    let n = spec_consecutive_count(data.len(), ff);
    lemma_sent_frame_decodes(data, padding, k);
    if k == 0 {
        let first = sent.take(1);
        assert(first.drop_last() =~= Seq::<Seq<u8>>::empty());
        assert(first.last() == sent[0]);
        assert(spec_receive_frames(t, first.drop_last()) == (t, Seq::<ReactionView>::empty()));
        lemma_on_first(t, sent[0], data.len() as u32, data.take(ff as int));
        let (t2, rs) = spec_receive_frames(t, first);
        assert(rs =~= seq![spec_on_frame(t, sent[0]).1]);
        let c0 = spec_update(spec_consecutive_empty(), data.len() as u32, data.take(ff as int));
        assert(c0.buffer =~= data.take(ff as int));
        assert(c0 == spec_partial(data, ff, 0));
    } else {
        lemma_receive_sent_prefix(data, ff, padding, t, k - 1);
        assert(sent.take(k + 1).drop_last() =~= sent.take(k));
        assert(sent.take(k + 1).last() == sent[k]);
        let (t1, rs1) = spec_receive_frames(t, sent.take(k));
        let chunk = spec_consecutive_chunk(data, ff, k - 1);
        assert(frames[k] == FrameView::Consecutive((k % 16) as u8, chunk));
        assert(ff + 7 * k < data.len()) by (nonlinear_arith)
            requires
                k < n,
                n == (data.len() - ff + 6) / 7,
                ff < data.len(),
        ;
        assert(chunk.len() == 7);
        assert(resized(chunk, 7, pad_byte(padding)) =~= chunk);
        let prev = spec_partial(data, ff, k - 1);
        assert(spec_next_sequence(prev.sequence) == (k % 16) as u8);
        assert(prev.buffer + chunk =~= data.take(ff + 7 * k));
        lemma_on_consecutive(t1, sent[k], (k % 16) as u8, chunk);
        let (t2, rs) = spec_receive_frames(t, sent.take(k + 1));
        assert(rs == rs1.push(spec_on_frame(t1, sent[k]).1));
        assert(t2 == spec_on_frame(t1, sent[k]).0);
        assert(spec_append(prev, (k % 16) as u8, chunk).0 == spec_partial(data, ff, k));
    }
}

/// What the receiver reports of the frames the sender writes for `data`.
pub open spec fn spec_received_as_sent(data: Seq<u8>, padding: Option<u8>, t: TransferView) -> bool {
    let sent = spec_sent_frames(data, padding);
    let (_, rs) = spec_receive_frames(t, sent);
    &&& rs.len() == sent.len()
    &&& rs.last() == ReactionView::Report(EventView::DataReceived(data))
    &&& data.len() > 7 ==> rs[0] == ReactionView::Reply(spec_default_flow_ctrl_bytes())
    &&& forall|i: int| 1 <= i < rs.len() - 1 ==> #[trigger] rs[i] == ReactionView::Report(EventView::Wait)
}

proof fn lemma_receive_single(data: Seq<u8>, padding: Option<u8>, t: TransferView)
    requires
        0 < data.len() <= 7,
    ensures
        spec_received_as_sent(data, padding, t),
{
    let frames = spec_from_data(data)->Ok_0;
    let sent = spec_sent_frames(data, padding);
    assert(frames == seq![FrameView::Single(data)]);
    segments_fit_can_frames(data, padding, 0);
    decode_encode_roundtrip(frames[0], padding);
    assert(sent.len() == 1);
    assert(sent[0] == spec_encode(frames[0], padding));
    assert(sent.drop_last() =~= Seq::<Seq<u8>>::empty());
    assert(spec_receive_frames(t, sent.drop_last()) == (t, Seq::<ReactionView>::empty()));
    lemma_on_single(t, sent[0], data);
    let (t2, rs) = spec_receive_frames(t, sent);
    assert(rs =~= seq![ReactionView::Report(EventView::DataReceived(data))]);
}

proof fn lemma_receive_segmented(data: Seq<u8>, padding: Option<u8>, t: TransferView)
    requires
        7 < data.len() <= 0xFFFF_FFFF,
        t.consecutive == spec_consecutive_empty(),
    ensures
        spec_received_as_sent(data, padding, t),
{
    let frames = spec_from_data(data)->Ok_0;
    let sent = spec_sent_frames(data, padding);
    let ff: nat = if data.len() <= 0x0FFF { 6 } else { 2 };
    assert(frames == spec_segments(data, ff));
    let n = spec_consecutive_count(data.len(), ff);
    assert(n >= 1) by (nonlinear_arith)
        requires
            n == (data.len() - ff + 6) / 7,
            ff < data.len(),
    ;
    lemma_receive_sent_prefix(data, ff, padding, t, n - 1);
    let last = n as int;
    assert(sent.len() == n + 1);
    assert(sent.drop_last() =~= sent.take(last));
    assert(sent.last() == sent[last]);
    lemma_sent_frame_decodes(data, padding, last);
    let (t1, rs1) = spec_receive_frames(t, sent.take(last));
    let chunk = spec_consecutive_chunk(data, ff, n - 1);
    let pad = pad_byte(padding);
    assert(ff + 7 * (n - 1) + 7 >= data.len()) by (nonlinear_arith)
        requires
            n == (data.len() - ff + 6) / 7,
            ff < data.len(),
    ;
    assert(ff + 7 * (n - 1) < data.len()) by (nonlinear_arith)
        requires
            n == (data.len() - ff + 6) / 7,
            ff < data.len(),
    ;
    let prev = spec_partial(data, ff, n - 1);
    assert(t1.consecutive == prev);
    assert(spec_next_sequence(prev.sequence) == (n % 16) as u8);
    let received = prev.buffer + resized(chunk, 7, pad);
    assert(received.take(data.len() as int) =~= data);
    assert(frames[last] == FrameView::Consecutive((n % 16) as u8, chunk));
    assert(spec_append(prev, (n % 16) as u8, resized(chunk, 7, pad)).1
        == Ok::<EventView, IsoTpErrorView>(EventView::DataReceived(data)));
    lemma_on_consecutive(t1, sent[last], (n % 16) as u8, resized(chunk, 7, pad));
    let (t2, rs) = spec_receive_frames(t, sent);
    assert(rs == rs1.push(ReactionView::Report(EventView::DataReceived(data))));
}

/// What a receiver makes of the frames a sender writes for `data`: a
/// single frame reports the data; a segmented message is answered with flow
/// control, each consecutive frame but the last reports `Wait`, and the last
/// reports the whole data, whatever the padding.
pub proof fn receiving_sent_frames_gives_data(data: Seq<u8>, padding: Option<u8>, t: TransferView)
    requires
        0 < data.len() <= 0xFFFF_FFFF,
        t.consecutive == spec_consecutive_empty(),
    ensures
        spec_received_as_sent(data, padding, t),
{
    if data.len() <= 7 {
        lemma_receive_single(data, padding, t);
    } else {
        lemma_receive_segmented(data, padding, t);
    }
}

} // verus!
