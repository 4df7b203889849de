use vstd::prelude::*;
use super::frame::{copy_range, FlowControlContext, Iso15765Error, IsoTpErrorModel};

verus! {

/// The largest p2 that a server may announce, in milliseconds.
pub const P2_MAX: u16 = 50;

/// The largest p2* that a server may announce, in units of 10 ms.
pub const P2_STAR_MAX: u16 = 500;

/// The ISO-TP addresses of one logical channel.
#[derive(Debug, Clone, Copy, PartialEq, Eq, Structural)]
pub struct Address {
    /// Physical identifier of outbound frames.
    pub tx_id: u32,
    /// Identifier of inbound frames.
    pub rx_id: u32,
    /// Functional (broadcast) identifier.
    pub fid: u32,
}

/// Whether a message goes to the physical or the functional address.
#[derive(Debug, Clone, Copy, PartialEq, Eq, Structural)]
pub enum AddressType {
    Physical,
    Functional,
}

impl Default for AddressType {
    fn default() -> (r: AddressType)
        ensures
            r == AddressType::Physical,
    {
        AddressType::Physical
    }
}

/// The UDS p2 timing: p2 in milliseconds, p2* in units of 10 ms, each
/// capped at its maximum.
#[derive(Debug, Clone, Copy, PartialEq, Eq, Structural)]
pub struct P2Context {
    pub(crate) p2: u16,
    pub(crate) p2_star: u16,
}

/// `v` capped at `max`.
pub open spec fn capped(v: u16, max: u16) -> u16 {
    if v > max { max } else { v }
}

impl P2Context {
    /// p2, in milliseconds.
    pub closed spec fn p2_spec(&self) -> u16 {
        self.p2
    }

    /// p2*, in units of 10 ms.
    pub closed spec fn p2_star_spec(&self) -> u16 {
        self.p2_star
    }

    /// A timing context with both values capped at their maxima.
    pub fn new(p2: u16, p2_star: u16) -> (r: P2Context)
        ensures
            r.p2_spec() == capped(p2, P2_MAX),
            r.p2_star_spec() == capped(p2_star, P2_STAR_MAX),
    {
        let p2 = if p2 > P2_MAX { P2_MAX } else { p2 };
        let p2_star = if p2_star > P2_STAR_MAX { P2_STAR_MAX } else { p2_star };
        P2Context { p2, p2_star }
    }

    /// Replaces both values, capped at their maxima.
    pub fn update(&mut self, p2: u16, p2_star: u16)
        ensures
            final(self).p2_spec() == capped(p2, P2_MAX),
            final(self).p2_star_spec() == capped(p2_star, P2_STAR_MAX),
    {
        self.p2 = if p2 > P2_MAX { P2_MAX } else { p2 };
        self.p2_star = if p2_star > P2_STAR_MAX { P2_STAR_MAX } else { p2_star };
    }

    /// p2 in milliseconds.
    pub fn p2_ms(&self) -> (r: u64)
        ensures
            r == self.p2_spec() as u64,
    {
        self.p2 as u64
    }

    /// p2* in milliseconds.
    pub fn p2_star_ms(&self) -> (r: u64)
        ensures
            r == self.p2_star_spec() as u64 * 10,
    {
        self.p2_star as u64 * 10
    }
}

impl Default for P2Context {
    fn default() -> (r: P2Context)
        ensures
            r.p2_spec() == P2_MAX,
            r.p2_star_spec() == P2_STAR_MAX,
    {
        P2Context::new(P2_MAX, P2_STAR_MAX)
    }
}

/// The reassembly part of a channel's context: the next expected sequence
/// number, the announced length (0 while no message is being received) and
/// the bytes received so far.
pub struct ReassemblyModel {
    pub sequence: u8,
    pub length: u32,
    pub buffer: Seq<u8>,
}

/// The reassembly state that holds no message.
pub open spec fn idle_reassembly() -> ReassemblyModel {
    ReassemblyModel { sequence: 0, length: 0, buffer: Seq::empty() }
}

/// The reassembly state after a first frame announcing `length` bytes and carrying `data`.
pub open spec fn started_reassembly(length: u32, data: Seq<u8>) -> ReassemblyModel {
    ReassemblyModel { sequence: 1, length, buffer: data }
}

/// One consecutive frame received: the next state, and the whole message
/// once the announced length is reached.
pub open spec fn reassembly_step(c: ReassemblyModel, sequence: u8, data: Seq<u8>) -> (
    ReassemblyModel,
    Result<Option<Seq<u8>>, IsoTpErrorModel>,
) {
    if c.length == 0 || sequence != c.sequence {
        (c, Err(IsoTpErrorModel::InvalidSequence { received: sequence, expected: c.sequence }))
    } else {
        let b = c.buffer + data;
        if b.len() >= c.length {
            (idle_reassembly(), Ok(Some(b.subrange(0, c.length as int))))
        } else {
            (ReassemblyModel { sequence: ((c.sequence + 1) % 16) as u8, length: c.length, buffer: b }, Ok(None))
        }
    }
}

/// The context of one ISO-TP channel.
pub struct IsoTpContext {
    /// The next expected sequence number.
    pub sequence: u8,
    /// The announced length; 0 while no message is being received.
    pub length: u32,
    /// The bytes received so far.
    pub buffer: Vec<u8>,
    /// The last flow control that the receiver sent, if any.
    pub flow_ctrl: Option<FlowControlContext>,
    /// The UDS timing.
    pub p2_ctx: P2Context,
}

impl IsoTpContext {
    /// The reassembly state.
    pub open spec fn reassembly(&self) -> ReassemblyModel {
        ReassemblyModel { sequence: self.sequence, length: self.length, buffer: self.buffer@ }
    }

    /// A context with no message in progress, no flow control and the default timing.
    pub fn new() -> (r: IsoTpContext)
        ensures
            r.reassembly() == idle_reassembly(),
            r.flow_ctrl is None,
            r.p2_ctx.p2_spec() == P2_MAX,
            r.p2_ctx.p2_star_spec() == P2_STAR_MAX,
    {
        IsoTpContext {
            sequence: 0,
            length: 0,
            buffer: Vec::new(),
            flow_ctrl: None,
            p2_ctx: P2Context::default(),
        }
    }

    /// Forgets the message in progress and the flow control; keeps the timing.
    pub fn reset(&mut self)
        ensures
            final(self).reassembly() == idle_reassembly(),
            final(self).flow_ctrl is None,
            final(self).p2_ctx == old(self).p2_ctx,
    {
        self.sequence = 0;
        self.length = 0;
        self.buffer = Vec::new();
        self.flow_ctrl = None;
        assert(self.buffer@ =~= Seq::<u8>::empty());
    }

    /// Starts reassembly of a message of `length` bytes whose first frame carried `data`.
    pub fn update_consecutive(&mut self, length: u32, data: Vec<u8>)
        ensures
            final(self).reassembly() == started_reassembly(length, data@),
            final(self).flow_ctrl == old(self).flow_ctrl,
            final(self).p2_ctx == old(self).p2_ctx,
    {
        self.sequence = 1;
        self.length = length;
        self.buffer = data;
    }

    /// Records the flow control that the receiver sent.
    pub fn update_flow_ctrl(&mut self, ctx: FlowControlContext)
        ensures
            final(self).flow_ctrl == Some(ctx),
            final(self).reassembly() == old(self).reassembly(),
            final(self).p2_ctx == old(self).p2_ctx,
    {
        self.flow_ctrl = Some(ctx);
    }

    /// Takes a consecutive frame: an error out of sequence, the whole message
    /// once the announced length is reached (cut to it), else nothing yet.
    pub fn append_consecutive(&mut self, sequence: u8, data: Vec<u8>) -> (r: Result<Option<Vec<u8>>, Iso15765Error>)
        ensures
            ({
                let (c, out) = reassembly_step(old(self).reassembly(), sequence, data@);
                &&& final(self).reassembly() == c
                &&& match r {
                    Ok(Some(v)) => out == Ok::<Option<Seq<u8>>, IsoTpErrorModel>(Some(v@)),
                    Ok(None) => out == Ok::<Option<Seq<u8>>, IsoTpErrorModel>(None),
                    Err(e) => out == Err::<Option<Seq<u8>>, IsoTpErrorModel>(e@),
                }
            }),
            final(self).flow_ctrl == old(self).flow_ctrl,
            final(self).p2_ctx == old(self).p2_ctx,
    {
        if self.length == 0 || sequence != self.sequence {
            return Err(Iso15765Error::InvalidSequence { received: sequence, expected: self.sequence });
        }
        let ghost before = self.buffer@;
        let mut i: usize = 0;
        while i < data.len()
            invariant
                i <= data@.len(),
                self.buffer@ == before + data@.subrange(0, i as int),
                before == old(self).buffer@,
                self.sequence == old(self).sequence,
                self.length == old(self).length,
                self.length != 0,
                sequence == self.sequence,
                self.flow_ctrl == old(self).flow_ctrl,
                self.p2_ctx == old(self).p2_ctx,
            decreases data@.len() - i,
        {
            self.buffer.push(data[i]);
            i += 1;
            assert(self.buffer@ =~= before + data@.subrange(0, i as int));
        }
        assert(data@.subrange(0, data@.len() as int) =~= data@);
        if self.buffer.len() >= self.length as usize {
            let out = copy_range(self.buffer.as_slice(), 0, self.length as usize);
            self.sequence = 0;
            self.length = 0;
            self.buffer = Vec::new();
            assert(self.buffer@ =~= Seq::<u8>::empty());
            Ok(Some(out))
        } else {
            self.sequence = (self.sequence % 16 + 1) % 16;
            Ok(None)
        }
    }
}

} // verus!
