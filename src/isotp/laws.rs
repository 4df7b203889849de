use vstd::prelude::*;
use crate::constants::CAN_FRAME_MAX_SIZE;
use crate::utils::resized;
use super::channel::block_step;
use super::context::{reassembly_step, started_reassembly, ReassemblyModel};
use super::frame::{
    st_min_delay_us,
    cf_count, decode_spec, encode_spec, fc_state_code, fc_state_of, from_data_spec, min_int, payload_of, segment_spec,
    FlowControlContext, FrameModel, IsoTpErrorModel, FIRST_FRAME_SIZE_2004, FIRST_FRAME_SIZE_2016,
    ISO_TP_MAX_LENGTH_2004, ISO_TP_MAX_LENGTH_2016, SINGLE_FRAME_SIZE_2004,
};

verus! {

/// The payloads of a sequence of frames, one after another.
pub open spec fn concat_payloads(s: Seq<FrameModel>) -> Seq<u8>
    decreases s.len(),
{
    if s.len() == 0 {
        Seq::empty()
    } else {
        concat_payloads(s.drop_last()) + payload_of(s.last())
    }
}

/// A sequence of byte strings, one after another.
pub open spec fn concat_all(ds: Seq<Seq<u8>>) -> Seq<u8>
    decreases ds.len(),
{
    if ds.len() == 0 {
        Seq::empty()
    } else {
        ds[0] + concat_all(ds.drop_first())
    }
}

/// Consecutive frames with sequence numbers `seqs` and payloads `ds` fed one
/// by one to the reassembly state `c`: the message once one completes it.
pub open spec fn feed(c: ReassemblyModel, seqs: Seq<u8>, ds: Seq<Seq<u8>>) -> Option<Seq<u8>>
    decreases ds.len(),
{
    if ds.len() == 0 || seqs.len() == 0 {
        None
    } else {
        let (next, out) = reassembly_step(c, seqs[0], ds[0]);
        match out {
            Ok(Some(m)) => Some(m),
            Ok(None) => feed(next, seqs.drop_first(), ds.drop_first()),
            Err(_) => None,
        }
    }
}

proof fn lemma_cf_bound(len: nat, ff: nat, k: int)
    requires
        ff < len,
        1 <= k <= cf_count(len, ff),
    ensures
        ff + 7 * (k - 1) < len,
{
    let x = (len - ff) as int;
    assert(7 * (k - 1) < x) by (nonlinear_arith)
        requires
            1 <= k <= (x + 6) / 7,
            x > 0,
    ;
}

proof fn lemma_cf_cover(len: nat, ff: nat)
    requires
        ff < len,
    ensures
        ff + 7 * cf_count(len, ff) >= len,
{
    let x = (len - ff) as int;
    let q = (x + 6) / 7;
    assert(7 * q >= x) by (nonlinear_arith)
        requires
            q == (x + 6) / 7,
            x > 0,
    ;
}

proof fn lemma_segment_prefix(p: Seq<u8>, ff: nat, k: int)
    requires
        0 < ff < p.len(),
        0 <= k <= cf_count(p.len(), ff),
    ensures
        concat_payloads(segment_spec(p, ff).take(k + 1)) == p.subrange(0, min_int(ff + 7 * k, p.len() as int)),
    decreases k,
{
    let seg = segment_spec(p, ff);
    if k == 0 {
        assert(seg.take(1).drop_last() =~= Seq::<FrameModel>::empty());
        assert(concat_payloads(Seq::<FrameModel>::empty()) == Seq::<u8>::empty());
        assert(seg.take(1).last() == seg[0]);
        assert(concat_payloads(seg.take(1)) =~= p.subrange(0, ff as int));
    } else {
        lemma_segment_prefix(p, ff, k - 1);
        lemma_cf_bound(p.len(), ff, k);
        assert(seg.take(k + 1).drop_last() =~= seg.take(k));
        let a = ff + 7 * (k - 1);
        let b = min_int(ff + 7 * k, p.len() as int);
        assert(p.subrange(0, a) + p.subrange(a, b) =~= p.subrange(0, b));
    }
}

/// Segmenting a payload of 1 to 0xFFFF_FFFF bytes loses nothing: the
/// payloads of the frames, one after another, are the payload, and a
/// segmented message's first frame announces its whole length.
pub proof fn lemma_segmentation_reassembles(p: Seq<u8>)
    requires
        0 < p.len() <= ISO_TP_MAX_LENGTH_2016,
    ensures
        match from_data_spec(p) {
            Ok(frames) => {
                &&& concat_payloads(frames) == p
                &&& frames.len() > 1 ==> frames[0] == (FrameModel::First {
                    length: p.len() as u32,
                    data: payload_of(frames[0]),
                })
            },
            Err(_) => false,
        },
{
    if p.len() <= 7 {
        let frames = seq![FrameModel::Single { data: p }];
        assert(frames.drop_last() =~= Seq::<FrameModel>::empty());
        assert(concat_payloads(Seq::<FrameModel>::empty()) == Seq::<u8>::empty());
        assert(concat_payloads(frames) =~= p);
    } else {
        let ff: nat = if p.len() <= ISO_TP_MAX_LENGTH_2004 { FIRST_FRAME_SIZE_2004 as nat } else { FIRST_FRAME_SIZE_2016 as nat };
        let seg = segment_spec(p, ff);
        let n = cf_count(p.len(), ff);
        lemma_segment_prefix(p, ff, n as int);
        lemma_cf_cover(p.len(), ff);
        assert(seg.take(n + 1 as int) =~= seg);
        assert(p.subrange(0, p.len() as int) =~= p);
    }
}

/// In a segmented message the i-th consecutive frame carries sequence number
/// i mod 16: numbering starts at 1 and wraps from 15 to 0, so exactly one
/// frame in every 16 consecutive ones carries 0.
pub proof fn lemma_sequence_wraps(p: Seq<u8>)
    requires
        SINGLE_FRAME_SIZE_2004 < p.len() <= ISO_TP_MAX_LENGTH_2016,
    ensures
        match from_data_spec(p) {
            Ok(frames) => {
                &&& forall|i: int| 1 <= i < frames.len() ==> (#[trigger] frames[i] matches FrameModel::Consecutive {
                    sequence,
                    ..
                } && sequence == i % 16)
                &&& forall|i: int| 1 <= i < frames.len() - 1 ==> (#[trigger] frames[i] matches FrameModel::Consecutive {
                    sequence: s,
                    ..
                } && frames[i + 1] matches FrameModel::Consecutive { sequence: t, .. } && t == (if s == 15 {
                    0
                } else {
                    s + 1
                }))
            },
            Err(_) => false,
        },
{
}

/// A payload of one byte less than the classic MTU fits one single frame
/// whose first byte is its length (no escape); one of a full MTU needs a
/// first frame and one consecutive frame.
pub proof fn lemma_single_frame_boundary(p: Seq<u8>, pad: u8)
    requires
        p.len() == CAN_FRAME_MAX_SIZE - 1 || p.len() == CAN_FRAME_MAX_SIZE,
    ensures
        p.len() == CAN_FRAME_MAX_SIZE - 1 ==> {
            &&& from_data_spec(p) == Ok::<Seq<FrameModel>, IsoTpErrorModel>(seq![FrameModel::Single { data: p }])
            &&& encode_spec(FrameModel::Single { data: p }, pad) == seq![7u8] + p
        },
        p.len() == CAN_FRAME_MAX_SIZE ==> from_data_spec(p) == Ok::<Seq<FrameModel>, IsoTpErrorModel>(seq![
            FrameModel::First { length: 8, data: p.subrange(0, 6) },
            FrameModel::Consecutive { sequence: 1, data: p.subrange(6, 8) },
        ]),
{
    if p.len() == 7 {
        assert(resized(seq![7u8] + p, 8, pad) =~= seq![7u8] + p);
    } else {
        assert(cf_count(8, 6) == 1);
        assert(segment_spec(p, 6) =~= seq![
            FrameModel::First { length: 8, data: p.subrange(0, 6) },
            FrameModel::Consecutive { sequence: 1, data: p.subrange(6, 8) },
        ]);
    }
}

proof fn lemma_feed(c: ReassemblyModel, seqs: Seq<u8>, ds: Seq<Seq<u8>>)
    requires
        c.length > 0,
        c.buffer.len() < c.length,
        c.sequence < 16,
        seqs.len() == ds.len(),
        forall|i: int| 0 <= i < seqs.len() ==> #[trigger] seqs[i] == ((c.sequence + i) % 16) as u8,
        c.buffer.len() + concat_all(ds).len() >= c.length,
    ensures
        feed(c, seqs, ds) == Some((c.buffer + concat_all(ds)).subrange(0, c.length as int)),
    decreases ds.len(),
{
    if ds.len() == 0 {
        assert(concat_all(ds).len() == 0);
    } else {
        assert(seqs[0] == c.sequence);
        let b = c.buffer + ds[0];
        let rest = ds.drop_first();
        assert(c.buffer + concat_all(ds) =~= b + concat_all(rest));
        if b.len() >= c.length {
            assert((b + concat_all(rest)).subrange(0, c.length as int) =~= b.subrange(0, c.length as int));
        } else {
            let next = ReassemblyModel { sequence: ((c.sequence + 1) % 16) as u8, length: c.length, buffer: b };
            assert forall|i: int| 0 <= i < seqs.drop_first().len() implies #[trigger] seqs.drop_first()[i] == ((
            next.sequence + i) % 16) as u8 by {
                assert(seqs.drop_first()[i] == seqs[i + 1]);
                assert(((c.sequence + 1) % 16 + i) % 16 == (c.sequence + i + 1) % 16) by (nonlinear_arith)
                    requires
                        i >= 0,
                ;
            }
            lemma_feed(next, seqs.drop_first(), rest);
        }
    }
}

/// Consecutive frames delivered with correct sequence numbers after a first
/// frame (1, 2, ... modulo 16) reassemble to the first frame's payload and
/// theirs, one after another, cut to the announced length; the message is
/// complete once their bytes reach that length.
pub proof fn lemma_reassembly(length: u32, first: Seq<u8>, seqs: Seq<u8>, ds: Seq<Seq<u8>>)
    requires
        first.len() < length,
        seqs.len() == ds.len(),
        forall|i: int| 0 <= i < seqs.len() ==> #[trigger] seqs[i] == ((1 + i) % 16) as u8,
        first.len() + concat_all(ds).len() >= length,
    ensures
        feed(started_reassembly(length, first), seqs, ds) == Some((first + concat_all(ds)).subrange(0, length as int)),
{
    lemma_feed(started_reassembly(length, first), seqs, ds);
}

/// Decoding the bytes of a well-formed frame gives the frame back: a single
/// frame of 1 to 7 bytes, a first frame of 6 bytes announcing 1 to 0xFFF,
/// a consecutive frame of 7 bytes numbered below 16, and any flow control frame.
pub proof fn lemma_decode_encode(f: FrameModel, pad: u8)
    requires
        match f {
            FrameModel::Single { data } => 1 <= data.len() <= 7,
            FrameModel::First { length, data } => data.len() == 6 && 0 < length <= ISO_TP_MAX_LENGTH_2004,
            FrameModel::Consecutive { sequence, data } => data.len() == 7 && sequence < 16,
            FrameModel::FlowControl(_) => true,
        },
    ensures
        decode_spec(encode_spec(f, pad)) == Ok::<FrameModel, IsoTpErrorModel>(f),
{
    let b = encode_spec(f, pad);
    match f {
        FrameModel::Single { data } => {
            let h = seq![data.len() as u8] + data;
            assert(b.len() == 8);
            assert(b[0] == data.len());
            assert(b.subrange(1, data.len() + 1 as int) =~= data);
        },
        FrameModel::First { length, data } => {
            assert(b.subrange(2, 8) =~= data);
        },
        FrameModel::Consecutive { sequence, data } => {
            assert(b =~= seq![(0x20 + sequence % 16) as u8] + data);
            assert(b.subrange(1, 8) =~= data);
        },
        FrameModel::FlowControl(c) => {
            assert(b.len() == 8);
            assert(b[0] == 0x30 + fc_state_code(c.state));
            assert(fc_state_of(fc_state_code(c.state)) == Some(c.state));
        },
    }
}

/// A separation time byte of 0 asks for no delay; 0xF1 to 0xF9 ask for
/// 100 to 900 microseconds, under a millisecond; 0x01 to 0x7F ask for whole
/// milliseconds.
pub proof fn lemma_st_min_delay(st_min: u8)
    ensures
        st_min == 0 ==> st_min_delay_us(st_min) == 0,
        0xF1 <= st_min <= 0xF9 ==> st_min_delay_us(st_min) == (st_min - 0xF0) * 100 && st_min_delay_us(st_min)
            < 1000,
        st_min <= 0x7F ==> st_min_delay_us(st_min) == st_min * 1000,
{
}

/// The sequence numbers of the consecutive frames of a segmentation.
pub open spec fn cf_sequences(frames: Seq<FrameModel>) -> Seq<u8> {
    Seq::new(
        (frames.len() - 1) as nat,
        |i: int|
            match frames[i + 1] {
                FrameModel::Consecutive { sequence, .. } => sequence,
                _ => 0,
            },
    )
}

/// The payloads of the consecutive frames of a segmentation.
pub open spec fn cf_payloads(frames: Seq<FrameModel>) -> Seq<Seq<u8>> {
    Seq::new((frames.len() - 1) as nat, |i: int| payload_of(frames[i + 1]))
}

proof fn lemma_cf_suffix(p: Seq<u8>, ff: nat, k: int)
    requires
        0 < ff < p.len(),
        0 <= k <= cf_count(p.len(), ff),
    ensures
        concat_all(cf_payloads(segment_spec(p, ff)).subrange(k, cf_count(p.len(), ff) as int)) == p.subrange(
            min_int(ff + 7 * k, p.len() as int),
            p.len() as int,
        ),
    decreases cf_count(p.len(), ff) - k,
{
    let n = cf_count(p.len(), ff) as int;
    let ds = cf_payloads(segment_spec(p, ff));
    if k == n {
        lemma_cf_cover(p.len(), ff);
        assert(ds.subrange(k, n).len() == 0);
        assert(p.subrange(min_int(ff + 7 * k, p.len() as int), p.len() as int) =~= Seq::<u8>::empty());
    } else {
        lemma_cf_suffix(p, ff, k + 1);
        lemma_cf_bound(p.len(), ff, k + 1);
        assert(ds.subrange(k, n).drop_first() =~= ds.subrange(k + 1, n));
        let a = ff + 7 * k;
        let b = min_int(ff + 7 * (k + 1), p.len() as int);
        assert(ds.subrange(k, n)[0] == p.subrange(a, b));
        assert(p.subrange(a, b) + p.subrange(b, p.len() as int) =~= p.subrange(a, p.len() as int));
    }
}

/// What a sender segments, a receiver reassembles: feeding the consecutive
/// frames of a segmented payload, in order, to the reassembly state that its
/// first frame starts gives back the payload.
pub proof fn lemma_segment_then_reassemble(p: Seq<u8>)
    requires
        SINGLE_FRAME_SIZE_2004 < p.len() <= ISO_TP_MAX_LENGTH_2016,
    ensures
        match from_data_spec(p) {
            Ok(frames) => feed(
                started_reassembly(p.len() as u32, payload_of(frames[0])),
                cf_sequences(frames),
                cf_payloads(frames),
            ) == Some(p),
            Err(_) => false,
        },
{
    let ff: nat = if p.len() <= ISO_TP_MAX_LENGTH_2004 { FIRST_FRAME_SIZE_2004 as nat } else { FIRST_FRAME_SIZE_2016 as nat };
    let frames = segment_spec(p, ff);
    let n = cf_count(p.len(), ff) as int;
    let first = p.subrange(0, ff as int);
    let ds = cf_payloads(frames);
    lemma_cf_suffix(p, ff, 0);
    assert(ds.subrange(0, n) =~= ds);
    assert(first + concat_all(ds) =~= p);
    assert forall|i: int| 0 <= i < cf_sequences(frames).len() implies #[trigger] cf_sequences(frames)[i] == ((1 + i)
        % 16) as u8 by {}
    lemma_reassembly(p.len() as u32, first, cf_sequences(frames), ds);
    assert(p.subrange(0, p.len() as int) =~= p);
}

/// The count of frames sent in the current block after `k` consecutive
/// frames, starting from 0.
pub open spec fn block_index_after(k: nat, block_size: u8) -> nat
    decreases k,
{
    if k == 0 {
        0
    } else {
        block_step(block_index_after((k - 1) as nat, block_size), block_size).0
    }
}

/// With a block size of 0 a sender never waits for another flow control
/// frame; with a block size of n it waits again exactly after every n-th
/// consecutive frame.
pub proof fn lemma_block_size(k: nat, block_size: u8)
    ensures
        block_size == 0 ==> !block_step(block_index_after(k, block_size), block_size).1,
        block_size > 0 ==> block_index_after(k, block_size) == k % (block_size as nat),
        block_size > 0 ==> (block_step(block_index_after(k, block_size), block_size).1 <==> (k + 1) % (
        block_size as nat) == 0),
    decreases k,
{
    let n = block_size as nat;
    if k > 0 {
        lemma_block_size((k - 1) as nat, block_size);
    }
    if block_size == 0 {
        if k > 0 {
            assert(block_index_after(k, block_size) == block_index_after((k - 1) as nat, block_size));
        }
    } else {
        if k > 0 {
            let i = (k - 1) as nat;
            assert(k % n == (if i % n + 1 >= n { 0 } else { i % n + 1 })) by (nonlinear_arith)
                requires
                    n > 0,
                    k == i + 1,
            {
                assert(i % n < n);
                assert(i == n * (i / n) + i % n);
                if i % n + 1 >= n {
                    assert(k == n * (i / n + 1));
                    assert(k % n == 0) by {
                        vstd::arithmetic::div_mod::lemma_mod_multiples_basic((i / n + 1) as int, n as int);
                    }
                } else {
                    assert(k == n * (i / n) + (i % n + 1));
                    vstd::arithmetic::div_mod::lemma_mod_multiples_vanish((i / n) as int, (i % n + 1) as int, n as int);
                    vstd::arithmetic::div_mod::lemma_small_mod((i % n + 1) as nat, n);
                }
            }
        }
        let j = k % n;
        assert((j + 1 >= n) <==> ((k + 1) % n == 0)) by (nonlinear_arith)
            requires
                n > 0,
                j == k % n,
        {
            assert(j < n);
            assert(k == n * (k / n) + j);
            if j + 1 >= n {
                assert(k + 1 == n * (k / n + 1));
                vstd::arithmetic::div_mod::lemma_mod_multiples_basic((k / n + 1) as int, n as int);
            } else {
                assert(k + 1 == n * (k / n) + (j + 1));
                vstd::arithmetic::div_mod::lemma_mod_multiples_vanish((k / n) as int, (j + 1) as int, n as int);
                vstd::arithmetic::div_mod::lemma_small_mod((j + 1) as nat, n);
            }
        }
    }
}

} // verus!
