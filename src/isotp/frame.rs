use vstd::prelude::*;
use crate::constants::{CAN_FRAME_MAX_SIZE, DEFAULT_PADDING};
use crate::utils::resized;

verus! {

/// Payload bytes of a single frame in the 2004 layout.
pub const SINGLE_FRAME_SIZE_2004: usize = 7;

/// Payload bytes of a single frame in the 2016 escape layout.
pub const SINGLE_FRAME_SIZE_2016: usize = 6;

/// Payload bytes of a first frame in the 2004 layout.
pub const FIRST_FRAME_SIZE_2004: usize = 6;

/// Payload bytes of a first frame in the 2016 escape layout.
pub const FIRST_FRAME_SIZE_2016: usize = 2;

/// Payload bytes of a consecutive frame.
pub const CONSECUTIVE_FRAME_SIZE: usize = 7;

/// The longest payload that the 12-bit first-frame length can announce.
pub const ISO_TP_MAX_LENGTH_2004: usize = 0xFFF;

/// The longest payload that the 32-bit escape length can announce.
pub const ISO_TP_MAX_LENGTH_2016: usize = 0xFFFF_FFFF;

/// Block size of the flow control frame that a receiver sends by default.
pub const ISO_TP_DEFAULT_BLOCK_SIZE: u8 = 0x00;

/// Separation time of the flow control frame that a receiver sends by default.
pub const ISO_TP_DEFAULT_ST_MIN: u8 = 0x0A;

/// The errors of the ISO-TP layer.
#[derive(Debug, Clone, PartialEq, Eq)]
pub enum Iso15765Error {
    /// A frame or a payload without bytes.
    EmptyPdu,
    /// Bytes that are no valid ISO-TP frame.
    InvalidPdu(Vec<u8>),
    /// A frame whose length is not the one its type asks for.
    InvalidDataLength { actual: usize, expect: usize },
    /// A length beyond what the frame or the protocol can carry.
    LengthOutOfRange(usize),
    /// A consecutive frame out of sequence.
    InvalidSequence { received: u8, expected: u8 },
    /// The receiver reported an overflow.
    OverloadFlow,
    /// The device or its queue failed.
    DeviceError,
    /// A bounded wait ran out after `value` milliseconds.
    Timeout { value: u64 },
}

/// The mathematical form of an ISO-TP error.
pub enum IsoTpErrorModel {
    EmptyPdu,
    InvalidPdu(Seq<u8>),
    InvalidDataLength { actual: nat, expect: nat },
    LengthOutOfRange(nat),
    InvalidSequence { received: u8, expected: u8 },
    OverloadFlow,
    DeviceError,
    Timeout { value: u64 },
}

impl View for Iso15765Error {
    type V = IsoTpErrorModel;

    open spec fn view(&self) -> IsoTpErrorModel {
        match self {
            Iso15765Error::EmptyPdu => IsoTpErrorModel::EmptyPdu,
            Iso15765Error::InvalidPdu(v) => IsoTpErrorModel::InvalidPdu(v@),
            Iso15765Error::InvalidDataLength { actual, expect } => IsoTpErrorModel::InvalidDataLength {
                actual: *actual as nat,
                expect: *expect as nat,
            },
            Iso15765Error::LengthOutOfRange(n) => IsoTpErrorModel::LengthOutOfRange(*n as nat),
            Iso15765Error::InvalidSequence { received, expected } => IsoTpErrorModel::InvalidSequence {
                received: *received,
                expected: *expected,
            },
            Iso15765Error::OverloadFlow => IsoTpErrorModel::OverloadFlow,
            Iso15765Error::DeviceError => IsoTpErrorModel::DeviceError,
            Iso15765Error::Timeout { value } => IsoTpErrorModel::Timeout { value: *value },
        }
    }
}

/// The state that a flow control frame reports.
#[derive(Debug, Clone, Copy, PartialEq, Eq, Structural)]
pub enum FlowControlState {
    /// Clear to send.
    Continues,
    /// Wait for the next flow control frame.
    Wait,
    /// The receiver cannot take the message.
    Overload,
}

/// The low nibble that carries `s` in a flow control frame.
pub open spec fn fc_state_code(s: FlowControlState) -> u8 {
    match s {
        FlowControlState::Continues => 0,
        FlowControlState::Wait => 1,
        FlowControlState::Overload => 2,
    }
}

/// The state that the nibble `c` stands for, if any.
pub open spec fn fc_state_of(c: u8) -> Option<FlowControlState> {
    if c == 0 {
        Some(FlowControlState::Continues)
    } else if c == 1 {
        Some(FlowControlState::Wait)
    } else if c == 2 {
        Some(FlowControlState::Overload)
    } else {
        None
    }
}

impl FlowControlState {
    /// The nibble that carries this state.
    pub fn code(&self) -> (r: u8)
        ensures
            r == fc_state_code(*self),
    {
        match self {
            FlowControlState::Continues => 0,
            FlowControlState::Wait => 1,
            FlowControlState::Overload => 2,
        }
    }

    /// The state for the nibble `c`, or `None` for a reserved value.
    pub fn from_code(c: u8) -> (r: Option<FlowControlState>)
        ensures
            r == fc_state_of(c),
    {
        if c == 0 {
            Some(FlowControlState::Continues)
        } else if c == 1 {
            Some(FlowControlState::Wait)
        } else if c == 2 {
            Some(FlowControlState::Overload)
        } else {
            None
        }
    }
}

/// The separation time, in microseconds, that the `st_min` byte asks for:
/// 0x00..=0x7F are milliseconds, 0xF1..=0xF9 are 100..=900 microseconds, and
/// a reserved value is taken as the longest, 127 ms.
pub open spec fn st_min_delay_us(st_min: u8) -> nat {
    if st_min <= 0x7F {
        st_min as nat * 1000
    } else if 0xF1 <= st_min && st_min <= 0xF9 {
        ((st_min - 0xF0) as nat) * 100
    } else {
        127_000
    }
}

/// What a flow control frame carries.
#[derive(Debug, Clone, Copy, PartialEq, Eq, Structural)]
pub struct FlowControlContext {
    pub state: FlowControlState,
    pub block_size: u8,
    pub st_min: u8,
}

impl FlowControlContext {
    /// A flow control context of the given parts.
    pub fn new(state: FlowControlState, block_size: u8, st_min: u8) -> (r: FlowControlContext)
        ensures
            r == (FlowControlContext { state, block_size, st_min }),
    {
        FlowControlContext { state, block_size, st_min }
    }

    /// The state reported.
    pub fn state(&self) -> (r: FlowControlState)
        ensures
            r == self.state,
    {
        self.state
    }

    /// How many consecutive frames may be sent before the next flow control
    /// frame; 0 means all that remain.
    pub fn block_size(&self) -> (r: u8)
        ensures
            r == self.block_size,
    {
        self.block_size
    }

    /// The separation time byte.
    pub fn st_min(&self) -> (r: u8)
        ensures
            r == self.st_min,
    {
        self.st_min
    }

    /// The separation time between consecutive frames, in microseconds.
    pub fn st_min_us(&self) -> (r: u64)
        ensures
            r as nat == st_min_delay_us(self.st_min),
    {
        let s = self.st_min;
        if s <= 0x7F {
            s as u64 * 1000
        } else if 0xF1 <= s && s <= 0xF9 {
            (s as u64 - 0xF0) * 100
        } else {
            127_000
        }
    }
}

/// An ISO-TP frame.
#[derive(Debug, Clone, PartialEq, Eq)]
pub enum IsoTpFrame {
    /// A whole message in one frame.
    SingleFrame { data: Vec<u8> },
    /// The start of a segmented message of `length` bytes.
    FirstFrame { length: u32, data: Vec<u8> },
    /// A continuation, numbered modulo 16.
    ConsecutiveFrame { sequence: u8, data: Vec<u8> },
    /// The receiver's pacing directive.
    FlowControlFrame(FlowControlContext),
}

/// The mathematical form of an ISO-TP frame.
pub enum FrameModel {
    Single { data: Seq<u8> },
    First { length: u32, data: Seq<u8> },
    Consecutive { sequence: u8, data: Seq<u8> },
    FlowControl(FlowControlContext),
}

impl View for IsoTpFrame {
    type V = FrameModel;

    open spec fn view(&self) -> FrameModel {
        match self {
            IsoTpFrame::SingleFrame { data } => FrameModel::Single { data: data@ },
            IsoTpFrame::FirstFrame { length, data } => FrameModel::First { length: *length, data: data@ },
            IsoTpFrame::ConsecutiveFrame { sequence, data } => FrameModel::Consecutive {
                sequence: *sequence,
                data: data@,
            },
            IsoTpFrame::FlowControlFrame(c) => FrameModel::FlowControl(*c),
        }
    }
}

/// The payload bytes that a frame carries (none for flow control).
pub open spec fn payload_of(f: FrameModel) -> Seq<u8> {
    match f {
        FrameModel::Single { data } => data,
        FrameModel::First { data, .. } => data,
        FrameModel::Consecutive { data, .. } => data,
        FrameModel::FlowControl(_) => Seq::empty(),
    }
}

/// The big-endian value of four bytes.
pub open spec fn be_u32(a: u8, b: u8, c: u8, d: u8) -> nat {
    a as nat * 0x100_0000 + b as nat * 0x1_0000 + c as nat * 0x100 + d as nat
}

/// The four big-endian bytes of `v`.
pub open spec fn be_bytes(v: u32) -> Seq<u8> {
    seq![
        (v / 0x100_0000) as u8,
        (v / 0x1_0000 % 0x100) as u8,
        (v / 0x100 % 0x100) as u8,
        (v % 0x100) as u8,
    ]
}

/// The bytes of a frame on a classic CAN slot, padded with `pad`.
pub open spec fn encode_spec(f: FrameModel, pad: u8) -> Seq<u8> {
    match f {
        FrameModel::Single { data } => if data.len() <= SINGLE_FRAME_SIZE_2004 {
            resized(seq![data.len() as u8] + data, CAN_FRAME_MAX_SIZE as nat, pad)
        } else {
            resized(seq![0u8, (data.len() % 0x100) as u8] + data, CAN_FRAME_MAX_SIZE as nat, pad)
        },
        FrameModel::First { length, data } => if length > ISO_TP_MAX_LENGTH_2004 {
            seq![0x10u8, 0u8] + be_bytes(length) + data
        } else {
            seq![(0x10 + length / 0x100) as u8, (length % 0x100) as u8] + data
        },
        FrameModel::Consecutive { sequence, data } => resized(
            seq![(0x20 + sequence % 16) as u8] + data,
            CAN_FRAME_MAX_SIZE as nat,
            pad,
        ),
        FrameModel::FlowControl(c) => resized(
            seq![(0x30 + fc_state_code(c.state)) as u8, c.block_size, c.st_min],
            CAN_FRAME_MAX_SIZE as nat,
            pad,
        ),
    }
}

/// The frame that the bytes `b` hold, or the error that decoding them meets.
pub open spec fn decode_spec(b: Seq<u8>) -> Result<FrameModel, IsoTpErrorModel> {
    let len = b.len();
    if len == 0 {
        Err(IsoTpErrorModel::EmptyPdu)
    } else if len < 3 {
        Err(IsoTpErrorModel::InvalidPdu(b))
    } else {
        let kind = b[0] / 16;
        let low = b[0] % 16;
        if kind == 0 {
            if len > CAN_FRAME_MAX_SIZE {
                Err(IsoTpErrorModel::LengthOutOfRange(len))
            } else if low > 0 {
                if len < low + 1 {
                    Err(IsoTpErrorModel::InvalidPdu(b))
                } else {
                    Ok(FrameModel::Single { data: b.subrange(1, low + 1) })
                }
            } else {
                if len < b[1] + 2 {
                    Err(IsoTpErrorModel::InvalidPdu(b))
                } else {
                    Ok(FrameModel::Single { data: b.subrange(2, b[1] + 2) })
                }
            }
        } else if kind == 1 {
            if len != CAN_FRAME_MAX_SIZE {
                Err(IsoTpErrorModel::InvalidDataLength { actual: len, expect: CAN_FRAME_MAX_SIZE as nat })
            } else if low as nat * 0x100 + b[1] as nat > 0 {
                Ok(FrameModel::First {
                    length: (low as nat * 0x100 + b[1] as nat) as u32,
                    data: b.subrange(2, len as int),
                })
            } else {
                Ok(FrameModel::First {
                    length: be_u32(b[2], b[3], b[4], b[5]) as u32,
                    data: b.subrange(6, len as int),
                })
            }
        } else if kind == 2 {
            Ok(FrameModel::Consecutive { sequence: low, data: b.subrange(1, len as int) })
        } else if kind == 3 {
            match fc_state_of(low) {
                Some(s) => Ok(FrameModel::FlowControl(
                    FlowControlContext { state: s, block_size: b[1], st_min: b[2] },
                )),
                None => Err(IsoTpErrorModel::InvalidPdu(b)),
            }
        } else {
            Err(IsoTpErrorModel::InvalidPdu(b))
        }
    }
}

/// The view of a decode result.
pub open spec fn result_view(r: Result<IsoTpFrame, Iso15765Error>) -> Result<FrameModel, IsoTpErrorModel> {
    match r {
        Ok(f) => Ok(f@),
        Err(e) => Err(e@),
    }
}

/// A copy of `data[start..end]`.
pub fn copy_range(data: &[u8], start: usize, end: usize) -> (r: Vec<u8>)
    requires
        start <= end <= data@.len(),
    ensures
        r@ == data@.subrange(start as int, end as int),
{
    let mut r: Vec<u8> = Vec::new();
    let mut i: usize = start;
    while i < end
        invariant
            start <= i <= end <= data@.len(),
            r@ == data@.subrange(start as int, i as int),
        decreases end - i,
    {
        r.push(data[i]);
        i += 1;
        assert(r@ =~= data@.subrange(start as int, i as int));
    }
    r
}

/// A copy of all of `data`.
pub fn bytes_of(data: &[u8]) -> (r: Vec<u8>)
    ensures
        r@ == data@,
{
    let r = copy_range(data, 0, data.len());
    assert(r@ =~= data@);
    r
}

/// `head` followed by `data`, cut or padded to a classic CAN slot with `pad`.
fn framed(head: Vec<u8>, data: &[u8], pad: u8) -> (r: Vec<u8>)
    ensures
        r@ == resized(head@ + data@, CAN_FRAME_MAX_SIZE as nat, pad),
{
    let mut r = head;
    let ghost whole = r@ + data@;
    let mut i: usize = 0;
    while i < data.len() && r.len() < CAN_FRAME_MAX_SIZE
        invariant
            i <= data@.len(),
            r@.len() <= CAN_FRAME_MAX_SIZE || i == 0,
            whole == head@ + data@,
            r@ == whole.subrange(0, r@.len() as int),
            r@.len() == head@.len() + i,
        decreases data@.len() - i,
    {
        r.push(data[i]);
        i += 1;
        assert(r@ =~= whole.subrange(0, r@.len() as int));
    }
    if r.len() > CAN_FRAME_MAX_SIZE {
        r.truncate(CAN_FRAME_MAX_SIZE);
        assert(r@ =~= resized(whole, CAN_FRAME_MAX_SIZE as nat, pad));
        return r;
    }
    if r.len() == CAN_FRAME_MAX_SIZE {
        assert(r@ =~= resized(whole, CAN_FRAME_MAX_SIZE as nat, pad));
        return r;
    }
    assert(r@ =~= whole);
    let ghost start = r@;
    while r.len() < CAN_FRAME_MAX_SIZE
        invariant
            start.len() <= r@.len() <= CAN_FRAME_MAX_SIZE,
            start.len() < CAN_FRAME_MAX_SIZE,
            start == whole,
            r@ == start + Seq::new((r@.len() - start.len()) as nat, |j: int| pad),
        decreases CAN_FRAME_MAX_SIZE - r.len(),
    {
        r.push(pad);
        assert(r@ =~= start + Seq::new((r@.len() - start.len()) as nat, |j: int| pad));
    }
    r
}

/// How many consecutive frames follow a first frame of `ff` bytes for `len` bytes.
pub open spec fn cf_count(len: nat, ff: nat) -> nat {
    ((len - ff + 6) as nat) / 7
}

/// The smaller of two integers.
pub open spec fn min_int(a: int, b: int) -> int {
    if a <= b { a } else { b }
}

/// The segmentation of `p` into a first frame of `ff` payload bytes and the
/// consecutive frames that carry the rest, seven bytes each, numbered from 1
/// modulo 16.
pub open spec fn segment_spec(p: Seq<u8>, ff: nat) -> Seq<FrameModel> {
    Seq::new(
        1 + cf_count(p.len(), ff),
        |i: int|
            if i == 0 {
                FrameModel::First { length: p.len() as u32, data: p.subrange(0, ff as int) }
            } else {
                FrameModel::Consecutive {
                    sequence: (i % 16) as u8,
                    data: p.subrange(ff + 7 * (i - 1), min_int(ff + 7 * i, p.len() as int)),
                }
            },
    )
}

/// The frames that carry the payload `p`, or the error for its length.
pub open spec fn from_data_spec(p: Seq<u8>) -> Result<Seq<FrameModel>, IsoTpErrorModel> {
    if p.len() == 0 {
        Err(IsoTpErrorModel::EmptyPdu)
    } else if p.len() <= SINGLE_FRAME_SIZE_2004 {
        Ok(seq![FrameModel::Single { data: p }])
    } else if p.len() <= ISO_TP_MAX_LENGTH_2004 {
        Ok(segment_spec(p, FIRST_FRAME_SIZE_2004 as nat))
    } else if p.len() <= ISO_TP_MAX_LENGTH_2016 {
        Ok(segment_spec(p, FIRST_FRAME_SIZE_2016 as nat))
    } else {
        Err(IsoTpErrorModel::LengthOutOfRange(p.len()))
    }
}

/// The views of a sequence of frames.
pub open spec fn frames_view(v: Seq<IsoTpFrame>) -> Seq<FrameModel> {
    v.map_values(|f: IsoTpFrame| f@)
}

/// The padding byte that an encode call uses.
pub open spec fn pad_of(padding: Option<u8>) -> u8 {
    match padding {
        Some(p) => p,
        None => DEFAULT_PADDING,
    }
}

/// Decodes a frame whose type nibble is single.
fn decode_single(data: &[u8], byte0: u8, length: usize) -> (r: Result<IsoTpFrame, Iso15765Error>)
    requires
        length == data@.len(),
        length >= 3,
        byte0 == data@[0],
        byte0 / 16 == 0,
    ensures
        result_view(r) == decode_spec(data@),
{
    if length > CAN_FRAME_MAX_SIZE {
        return Err(Iso15765Error::LengthOutOfRange(length));
    }
    let pdu_len = byte0 % 16;
    if pdu_len > 0 {
        if length < pdu_len as usize + 1 {
            return Err(Iso15765Error::InvalidPdu(bytes_of(data)));
        }
        Ok(IsoTpFrame::SingleFrame { data: copy_range(data, 1, pdu_len as usize + 1) })
    } else {
        let pdu_len = data[1];
        if length < pdu_len as usize + 2 {
            return Err(Iso15765Error::InvalidPdu(bytes_of(data)));
        }
        Ok(IsoTpFrame::SingleFrame { data: copy_range(data, 2, pdu_len as usize + 2) })
    }
}

/// Decodes a frame whose type nibble is first.
fn decode_first(data: &[u8], byte0: u8, length: usize) -> (r: Result<IsoTpFrame, Iso15765Error>)
    requires
        length == data@.len(),
        length >= 3,
        byte0 == data@[0],
        byte0 / 16 == 1,
    ensures
        result_view(r) == decode_spec(data@),
{
    if length != CAN_FRAME_MAX_SIZE {
        return Err(Iso15765Error::InvalidDataLength { actual: length, expect: CAN_FRAME_MAX_SIZE });
    }
    let pdu_len: u32 = (byte0 % 16) as u32 * 0x100 + data[1] as u32;
    if pdu_len > 0 {
        Ok(IsoTpFrame::FirstFrame { length: pdu_len, data: copy_range(data, 2, length) })
    } else {
        let long_len: u32 = data[2] as u32 * 0x100_0000 + data[3] as u32 * 0x1_0000 + data[4] as u32 * 0x100
            + data[5] as u32;
        Ok(IsoTpFrame::FirstFrame { length: long_len, data: copy_range(data, 6, length) })
    }
}

/// The bytes of a single frame.
fn encode_single(data: Vec<u8>, padding: Option<u8>) -> (r: Vec<u8>)
    ensures
        r@ == encode_spec(FrameModel::Single { data: data@ }, pad_of(padding)),
{
    let pad = match padding {
        Some(p) => p,
        None => DEFAULT_PADDING,
    };
    let length = data.len();
    let mut head: Vec<u8> = Vec::new();
    if length <= SINGLE_FRAME_SIZE_2004 {
        head.push(length as u8);
    } else {
        head.push(0);
        head.push((length % 0x100) as u8);
    }
    assert(length <= SINGLE_FRAME_SIZE_2004 ==> head@ =~= seq![data@.len() as u8]);
    assert(length > SINGLE_FRAME_SIZE_2004 ==> head@ =~= seq![0u8, (data@.len() % 0x100) as u8]);
    framed(head, data.as_slice(), pad)
}

/// The bytes of a first frame: the length in twelve bits, or after an escape in
/// thirty-two where it does not fit.
fn encode_first(length: u32, data: Vec<u8>) -> (r: Vec<u8>)
    ensures
        r@ == encode_spec(FrameModel::First { length, data: data@ }, DEFAULT_PADDING),
{
    let mut result: Vec<u8> = Vec::new();
    if length as usize > ISO_TP_MAX_LENGTH_2004 {
        result.push(0x10);
        result.push(0);
        result.push((length / 0x100_0000) as u8);
        result.push((length / 0x1_0000 % 0x100) as u8);
        result.push((length / 0x100 % 0x100) as u8);
        result.push((length % 0x100) as u8);
    } else {
        result.push((0x10 + length / 0x100) as u8);
        result.push((length % 0x100) as u8);
    }
    let ghost head = result@;
    let mut i: usize = 0;
    while i < data.len()
        invariant
            i <= data@.len(),
            result@ == head + data@.subrange(0, i as int),
        decreases data@.len() - i,
    {
        result.push(data[i]);
        i += 1;
        assert(result@ =~= head + data@.subrange(0, i as int));
    }
    assert(data@.subrange(0, data@.len() as int) =~= data@);
    assert(length as usize > ISO_TP_MAX_LENGTH_2004 ==> head =~= seq![0x10u8, 0u8] + be_bytes(length));
    assert(length as usize <= ISO_TP_MAX_LENGTH_2004 ==> head =~= seq![
        (0x10 + length / 0x100) as u8,
        (length % 0x100) as u8,
    ]);
    result
}

/// Splits `data` into a first frame of `first_frame_size` bytes and the
/// consecutive frames for the rest.
fn parse_frame_util(data: &[u8], first_frame_size: usize) -> (r: Vec<IsoTpFrame>)
    requires
        first_frame_size < data@.len() <= ISO_TP_MAX_LENGTH_2016,
    ensures
        frames_view(r@) == segment_spec(data@, first_frame_size as nat),
{
    let length = data.len();
    let ghost seg = segment_spec(data@, first_frame_size as nat);
    let mut results: Vec<IsoTpFrame> = Vec::new();
    results.push(IsoTpFrame::FirstFrame { length: length as u32, data: copy_range(data, 0, first_frame_size) });
    let mut offset: usize = first_frame_size;
    let mut sequence: u8 = 1;
    loop
        invariant
            first_frame_size < length == data@.len() <= ISO_TP_MAX_LENGTH_2016,
            seg == segment_spec(data@, first_frame_size as nat),
            1 <= results@.len(),
            offset == first_frame_size + 7 * (results@.len() - 1),
            offset < length,
            sequence as int == results@.len() % 16,
            results@.len() <= cf_count(length as nat, first_frame_size as nat),
            forall|j: int| 0 <= j < results@.len() ==> #[trigger] results@[j]@ == seg[j],
        decreases length - offset,
    {
        let ghost n = results@.len() as int;
        if length - offset <= CONSECUTIVE_FRAME_SIZE {
            results.push(IsoTpFrame::ConsecutiveFrame { sequence, data: copy_range(data, offset, length) });
            assert(cf_count(length as nat, first_frame_size as nat) == n) by (nonlinear_arith)
                requires
                    offset == first_frame_size + 7 * (n - 1),
                    offset < length,
                    offset + 7 >= length,
                    n <= cf_count(length as nat, first_frame_size as nat),
                    first_frame_size < length,
            ;
            assert(frames_view(results@) =~= seg);
            return results;
        }
        results.push(IsoTpFrame::ConsecutiveFrame {
            sequence,
            data: copy_range(data, offset, offset + CONSECUTIVE_FRAME_SIZE),
        });
        assert(n + 1 <= cf_count(length as nat, first_frame_size as nat)) by (nonlinear_arith)
            requires
                offset == first_frame_size + 7 * (n - 1),
                offset + 7 < length,
                first_frame_size < length,
        ;
        offset += CONSECUTIVE_FRAME_SIZE;
        if sequence >= 0x0F {
            sequence = 0;
        } else {
            sequence += 1;
        }
    }
}

impl IsoTpFrame {
    /// Decodes the bytes of one CAN payload.
    pub fn decode(data: &[u8]) -> (r: Result<IsoTpFrame, Iso15765Error>)
        ensures
            result_view(r) == decode_spec(data@),
    {
        let length = data.len();
        if length == 0 {
            return Err(Iso15765Error::EmptyPdu);
        }
        if length < 3 {
            return Err(Iso15765Error::InvalidPdu(bytes_of(data)));
        }
        let byte0 = data[0];
        let kind = byte0 / 16;
        if kind == 0 {
            decode_single(data, byte0, length)
        } else if kind == 1 {
            decode_first(data, byte0, length)
        } else if kind == 2 {
            Ok(IsoTpFrame::ConsecutiveFrame { sequence: byte0 % 16, data: copy_range(data, 1, length) })
        } else if kind == 3 {
            match FlowControlState::from_code(byte0 % 16) {
                Some(state) => Ok(IsoTpFrame::FlowControlFrame(FlowControlContext::new(state, data[1], data[2]))),
                None => Err(Iso15765Error::InvalidPdu(bytes_of(data))),
            }
        } else {
            Err(Iso15765Error::InvalidPdu(bytes_of(data)))
        }
    }

    /// The bytes of this frame; single, consecutive and flow control frames
    /// fill a classic CAN slot with `padding` (by default 0xAA).
    pub fn encode(self, padding: Option<u8>) -> (r: Vec<u8>)
        ensures
            r@ == encode_spec(self@, pad_of(padding)),
    {
        let pad = match padding {
            Some(p) => p,
            None => DEFAULT_PADDING,
        };
        match self {
            IsoTpFrame::SingleFrame { data } => encode_single(data, padding),
            IsoTpFrame::FirstFrame { length, data } => encode_first(length, data),
            IsoTpFrame::ConsecutiveFrame { sequence, data } => {
                let mut head: Vec<u8> = Vec::new();
                head.push(0x20 + sequence % 16);
                assert(head@ =~= seq![(0x20 + sequence % 16) as u8]);
                framed(head, data.as_slice(), pad)
            },
            IsoTpFrame::FlowControlFrame(context) => {
                let mut head: Vec<u8> = Vec::new();
                head.push(0x30 + context.state.code());
                head.push(context.block_size);
                head.push(context.st_min);
                let empty: Vec<u8> = Vec::new();
                assert(head@ + empty@ =~= seq![
                    (0x30 + fc_state_code(context.state)) as u8,
                    context.block_size,
                    context.st_min,
                ]);
                framed(head, empty.as_slice(), pad)
            },
        }
    }

    /// Segments a payload: one single frame up to seven bytes, else a first
    /// frame and consecutive frames; the 32-bit escape past 0xFFF bytes.
    pub fn from_data(data: &[u8]) -> (r: Result<Vec<IsoTpFrame>, Iso15765Error>)
        ensures
            match r {
                Ok(v) => from_data_spec(data@) == Ok::<Seq<FrameModel>, IsoTpErrorModel>(frames_view(v@)),
                Err(e) => from_data_spec(data@) == Err::<Seq<FrameModel>, IsoTpErrorModel>(e@),
            },
    {
        let length = data.len();
        if length == 0 {
            Err(Iso15765Error::EmptyPdu)
        } else if length <= SINGLE_FRAME_SIZE_2004 {
            let mut v: Vec<IsoTpFrame> = Vec::new();
            v.push(IsoTpFrame::SingleFrame { data: copy_range(data, 0, length) });
            assert(data@.subrange(0, length as int) =~= data@);
            assert(frames_view(v@) =~= seq![FrameModel::Single { data: data@ }]);
            Ok(v)
        } else if length <= ISO_TP_MAX_LENGTH_2004 {
            Ok(parse_frame_util(data, FIRST_FRAME_SIZE_2004))
        } else if length <= ISO_TP_MAX_LENGTH_2016 {
            Ok(parse_frame_util(data, FIRST_FRAME_SIZE_2016))
        } else {
            Err(Iso15765Error::LengthOutOfRange(length))
        }
    }

    /// A single frame for 1 to 7 bytes of payload.
    pub fn single_frame(data: &[u8]) -> (r: Result<IsoTpFrame, Iso15765Error>)
        ensures
            data@.len() == 0 ==> r == Err::<IsoTpFrame, Iso15765Error>(Iso15765Error::EmptyPdu),
            1 <= data@.len() <= SINGLE_FRAME_SIZE_2004 ==> (r matches Ok(f) && f@ == FrameModel::Single { data: data@ }),
            data@.len() > SINGLE_FRAME_SIZE_2004 ==> r == Err::<IsoTpFrame, Iso15765Error>(
                Iso15765Error::LengthOutOfRange(data@.len() as usize),
            ),
    {
        new_single(data)
    }

    /// A flow control frame of the given parts.
    pub fn flow_ctrl_frame(state: FlowControlState, block_size: u8, st_min: u8) -> (r: Result<IsoTpFrame, Iso15765Error>)
        ensures
            r == Ok::<IsoTpFrame, Iso15765Error>(
                IsoTpFrame::FlowControlFrame(FlowControlContext { state, block_size, st_min }),
            ),
    {
        Ok(IsoTpFrame::FlowControlFrame(FlowControlContext::new(state, block_size, st_min)))
    }

    /// The flow control frame that a receiver answers a first frame with:
    /// continue, no block limit, 10 ms separation.
    pub fn default_flow_ctrl_frame() -> (r: IsoTpFrame)
        ensures
            r == IsoTpFrame::FlowControlFrame(FlowControlContext {
                state: FlowControlState::Continues,
                block_size: ISO_TP_DEFAULT_BLOCK_SIZE,
                st_min: ISO_TP_DEFAULT_ST_MIN,
            }),
    {
        IsoTpFrame::FlowControlFrame(
            FlowControlContext::new(FlowControlState::Continues, ISO_TP_DEFAULT_BLOCK_SIZE, ISO_TP_DEFAULT_ST_MIN),
        )
    }
}

/// A single frame for 1 to 7 bytes of payload.
fn new_single(data: &[u8]) -> (r: Result<IsoTpFrame, Iso15765Error>)
    ensures
        data@.len() == 0 ==> r == Err::<IsoTpFrame, Iso15765Error>(Iso15765Error::EmptyPdu),
        1 <= data@.len() <= SINGLE_FRAME_SIZE_2004 ==> (r matches Ok(f) && f@ == FrameModel::Single { data: data@ }),
        data@.len() > SINGLE_FRAME_SIZE_2004 ==> r == Err::<IsoTpFrame, Iso15765Error>(
            Iso15765Error::LengthOutOfRange(data@.len() as usize),
        ),
{
    let length = data.len();
    if length == 0 {
        Err(Iso15765Error::EmptyPdu)
    } else if length <= SINGLE_FRAME_SIZE_2004 {
        let d = copy_range(data, 0, length);
        assert(d@ =~= data@);
        Ok(IsoTpFrame::SingleFrame { data: d })
    } else {
        Err(Iso15765Error::LengthOutOfRange(length))
    }
}

} // verus!
