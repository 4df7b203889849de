use vstd::prelude::*;
use super::context::{started_reassembly, reassembly_step, Address, AddressType, IsoTpContext};
use super::frame::{
    decode_spec, from_data_spec, frames_view, FlowControlContext, FlowControlState, FrameModel, Iso15765Error,
    IsoTpErrorModel, IsoTpFrame, ISO_TP_DEFAULT_BLOCK_SIZE, ISO_TP_DEFAULT_ST_MIN,
};

verus! {

/// State flag: no flag set.
pub const STATE_IDLE: u8 = 0;

/// State flag: a frame was handed to the driver and not yet confirmed.
pub const STATE_SENDING: u8 = 1;

/// State flag: waiting for the receiver's flow control frame.
pub const STATE_WAIT_FLOW_CTRL: u8 = 2;

/// State flag: the receiver asked to wait.
pub const STATE_WAIT_BUSY: u8 = 4;

/// State flag: the transfer failed; cleared only by the next write.
pub const STATE_ERROR: u8 = 8;

/// The longest wait for a transmit confirmation (N_As), in milliseconds.
pub const TIMEOUT_AS_ISO15765_2: u64 = 1000;

/// The longest wait for a flow control frame (N_Bs / N_Cr), in milliseconds.
pub const TIMEOUT_CR_ISO15765_2: u64 = 1000;

/// The state bits after `flags` are appended to `bits`: idle resets all, and
/// an error clears every other flag.
pub open spec fn appended_bits(bits: u8, flags: u8) -> u8 {
    if flags == STATE_IDLE {
        STATE_IDLE
    } else if flags & STATE_ERROR != 0 {
        STATE_ERROR
    } else {
        bits | flags
    }
}

/// The flag constants combine as bits do.
proof fn lemma_flag_bits()
    ensures
        STATE_ERROR & STATE_ERROR != 0,
        STATE_SENDING & STATE_ERROR == 0,
        STATE_WAIT_BUSY & STATE_ERROR == 0,
        STATE_WAIT_FLOW_CTRL & STATE_ERROR == 0,
        (STATE_SENDING | STATE_WAIT_FLOW_CTRL) & STATE_ERROR == 0,
        (STATE_SENDING | STATE_WAIT_FLOW_CTRL) == 3u8,
        (STATE_WAIT_BUSY | STATE_WAIT_FLOW_CTRL) == 6u8,
{
    assert(8u8 & 8u8 != 0 && 1u8 & 8u8 == 0 && 4u8 & 8u8 == 0 && 2u8 & 8u8 == 0 && (1u8 | 2u8) & 8u8 == 0
        && (1u8 | 2u8) == 3u8 && (4u8 | 2u8) == 6u8) by (bit_vector);
}

/// One consecutive frame sent in a block: the new count of frames sent in
/// the block, and whether the sender now waits for flow control. A block
/// size of 0 never waits.
pub open spec fn block_step(index: nat, block_size: u8) -> (nat, bool) {
    if block_size == 0 {
        (index, false)
    } else if index + 1 >= block_size {
        (0, true)
    } else {
        (index + 1, false)
    }
}

/// The state of an ISO-TP channel: a set of flags.
#[derive(Debug, Clone, Copy, PartialEq, Eq, Structural)]
pub struct IsoTpState {
    pub bits: u8,
}

impl IsoTpState {
    /// The idle state.
    pub fn idle() -> (r: IsoTpState)
        ensures
            r.bits == STATE_IDLE,
    {
        IsoTpState { bits: STATE_IDLE }
    }

    /// Adds `flags`: idle resets all, and an error latches alone.
    pub fn append(&mut self, flags: u8)
        ensures
            final(self).bits == appended_bits(old(self).bits, flags),
    {
        if flags == STATE_IDLE {
            self.bits = STATE_IDLE;
        } else if flags & STATE_ERROR != 0 {
            self.bits = STATE_ERROR;
        } else {
            self.bits = self.bits | flags;
        }
    }

    /// Clears `flags`.
    pub fn remove(&mut self, flags: u8)
        ensures
            final(self).bits == old(self).bits & !flags,
    {
        self.bits = self.bits & !flags;
    }

    /// Whether any of `flags` is set.
    pub fn contains(&self, flags: u8) -> (r: bool)
        ensures
            r == (self.bits & flags != 0),
    {
        self.bits & flags != 0
    }
}

/// What an ISO-TP channel reports to its listener.
#[derive(Debug, Clone, PartialEq, Eq)]
pub enum IsoTpEvent {
    /// The receiver asked the sender to wait.
    Wait,
    /// A first frame arrived and was answered with flow control.
    FirstFrameReceived,
    /// A whole message arrived.
    DataReceived(Vec<u8>),
    /// The transfer failed.
    ErrorOccurred(Iso15765Error),
}

/// The mathematical form of an event.
pub enum EventModel {
    Wait,
    FirstFrameReceived,
    DataReceived(Seq<u8>),
    ErrorOccurred(IsoTpErrorModel),
}

impl View for IsoTpEvent {
    type V = EventModel;

    open spec fn view(&self) -> EventModel {
        match self {
            IsoTpEvent::Wait => EventModel::Wait,
            IsoTpEvent::FirstFrameReceived => EventModel::FirstFrameReceived,
            IsoTpEvent::DataReceived(d) => EventModel::DataReceived(d@),
            IsoTpEvent::ErrorOccurred(e) => EventModel::ErrorOccurred(e@),
        }
    }
}

/// What a channel does in answer to an inbound frame: an event for the
/// listener and a frame to send back, each where there is one.
pub struct Reaction {
    pub event: Option<IsoTpEvent>,
    pub reply: Option<Reply>,
}

/// A frame to send back, with the identifier and driver channel it goes on.
pub struct Reply {
    pub id: u32,
    pub channel: u8,
    pub frame: IsoTpFrame,
}

/// The view of an optional event.
pub open spec fn event_of(e: Option<IsoTpEvent>) -> Option<EventModel> {
    match e {
        Some(v) => Some(v@),
        None => None,
    }
}

/// The view of an optional frame.
pub open spec fn reply_of(f: Option<Reply>) -> Option<(u32, u8, FrameModel)> {
    match f {
        Some(v) => Some((v.id, v.channel, v.frame@)),
        None => None,
    }
}

/// The flow control frame that answers a first frame.
pub open spec fn default_flow_ctrl_model() -> FrameModel {
    FrameModel::FlowControl(FlowControlContext {
        state: FlowControlState::Continues,
        block_size: ISO_TP_DEFAULT_BLOCK_SIZE,
        st_min: ISO_TP_DEFAULT_ST_MIN,
    })
}

/// What a sender waiting on the channel's state does next.
#[derive(Debug, Clone, PartialEq, Eq)]
pub enum WaitVerdict {
    /// Nothing is outstanding: send the next frame.
    Proceed,
    /// Keep waiting.
    Pending,
    /// Give up with this error.
    Failed(Iso15765Error),
}

/// The verdict on a wait that has lasted `elapsed` ms in the state `bits`,
/// with a p2* of `p2_star` ms.
pub open spec fn wait_verdict_spec(bits: u8, elapsed: u64, p2_star: u64) -> WaitVerdict {
    if bits & STATE_ERROR != 0 {
        WaitVerdict::Failed(Iso15765Error::DeviceError)
    } else if bits & STATE_SENDING != 0 {
        if elapsed > TIMEOUT_AS_ISO15765_2 {
            WaitVerdict::Failed(Iso15765Error::Timeout { value: TIMEOUT_AS_ISO15765_2 })
        } else {
            WaitVerdict::Pending
        }
    } else if bits & STATE_WAIT_BUSY != 0 {
        if elapsed > p2_star {
            WaitVerdict::Failed(Iso15765Error::Timeout { value: p2_star })
        } else {
            WaitVerdict::Pending
        }
    } else if bits & STATE_WAIT_FLOW_CTRL != 0 {
        if elapsed > TIMEOUT_CR_ISO15765_2 {
            WaitVerdict::Failed(Iso15765Error::Timeout { value: TIMEOUT_CR_ISO15765_2 })
        } else {
            WaitVerdict::Pending
        }
    } else {
        WaitVerdict::Proceed
    }
}

/// The decisions of one ISO-TP channel: addressing, state flags and
/// reassembly. Whoever owns it sends the frames it hands out, sleeps the
/// delays it names and reports back what the driver did.
pub struct CanIsoTp {
    /// The driver channel this ISO-TP channel runs on.
    pub channel: u8,
    pub address: Address,
    pub state: IsoTpState,
    pub context: IsoTpContext,
}

impl CanIsoTp {
    /// An idle channel on `channel` with the addresses `address`.
    pub fn new(channel: u8, address: Address) -> (r: CanIsoTp)
        ensures
            r.channel == channel,
            r.address == address,
            r.state.bits == STATE_IDLE,
            r.context.buffer@.len() == 0,
            r.context.length == 0,
            r.context.flow_ctrl is None,
    {
        CanIsoTp { channel, address, state: IsoTpState::idle(), context: IsoTpContext::new() }
    }

    /// Sets the UDS timing, each value capped at its maximum.
    pub fn set_p2_context(&mut self, p2_ms: u16, p2_star_ms: u16)
        ensures
            final(self).context.p2_ctx.p2_spec() == super::context::capped(p2_ms, super::context::P2_MAX),
            final(self).context.p2_ctx.p2_star_spec() == super::context::capped(
                p2_star_ms,
                super::context::P2_STAR_MAX,
            ),
            final(self).address == old(self).address,
            final(self).state == old(self).state,
    {
        self.context.p2_ctx.update(p2_ms, p2_star_ms);
    }

    /// Replaces the addresses.
    pub fn update_address(&mut self, address: Address)
        ensures
            final(self).address == address,
            final(self).state == old(self).state,
            final(self).channel == old(self).channel,
    {
        self.address = address;
    }

    /// Starts a write: clears every flag and the context, then segments
    /// `data`. On success, the identifier to send on and the frames in order.
    pub fn write(&mut self, addr_type: AddressType, data: &[u8]) -> (r: Result<(u32, Vec<IsoTpFrame>), Iso15765Error>)
        ensures
            final(self).state.bits == STATE_IDLE,
            final(self).context.length == 0,
            final(self).context.flow_ctrl is None,
            final(self).address == old(self).address,
            final(self).channel == old(self).channel,
            match r {
                Ok((id, frames)) => {
                    &&& from_data_spec(data@) == Ok::<Seq<FrameModel>, IsoTpErrorModel>(frames_view(frames@))
                    &&& id == (match addr_type {
                        AddressType::Physical => old(self).address.tx_id,
                        AddressType::Functional => old(self).address.fid,
                    })
                },
                Err(e) => from_data_spec(data@) == Err::<Seq<FrameModel>, IsoTpErrorModel>(e@),
            },
    {
        self.state.append(STATE_IDLE);
        self.context.reset();
        let frames = match IsoTpFrame::from_data(data) {
            Ok(v) => v,
            Err(e) => return Err(e),
        };
        let can_id = match addr_type {
            AddressType::Physical => self.address.tx_id,
            AddressType::Functional => self.address.fid,
        };
        Ok((can_id, frames))
    }

    /// The flags to set before handing a frame to the driver: the first of
    /// several also waits for flow control.
    pub fn before_send(&mut self, first_of_many: bool)
        ensures
            final(self).state.bits == appended_bits(
                old(self).state.bits,
                if first_of_many { (STATE_SENDING | STATE_WAIT_FLOW_CTRL) as u8 } else { STATE_SENDING },
            ),
            final(self).context == old(self).context,
            final(self).address == old(self).address,
            final(self).channel == old(self).channel,
    {
        proof {
            lemma_flag_bits();
        }
        if first_of_many {
            self.state.append(STATE_SENDING | STATE_WAIT_FLOW_CTRL);
        } else {
            self.state.append(STATE_SENDING);
        }
    }

    /// Paces a consecutive frame. `index` counts the frames sent in the
    /// current block; once it reaches the block size the channel waits for
    /// the next flow control again (a block size of 0 never does). Returns
    /// the new count and the separation time to sleep, in microseconds.
    pub fn write_waiting(&mut self, index: usize) -> (r: (usize, u64))
        ensures
            final(self).context == old(self).context,
            final(self).address == old(self).address,
            final(self).channel == old(self).channel,
            match old(self).context.flow_ctrl {
                None => r == (index, 0u64) && final(self).state == old(self).state,
                Some(fc) => {
                    &&& r.1 as nat == super::frame::st_min_delay_us(fc.st_min)
                    &&& r.0 as nat == block_step(index as nat, fc.block_size).0
                    &&& final(self).state.bits == if block_step(index as nat, fc.block_size).1 {
                        appended_bits(old(self).state.bits, STATE_WAIT_FLOW_CTRL)
                    } else {
                        old(self).state.bits
                    }
                },
            },
    {
        proof {
            lemma_flag_bits();
        }
        match self.context.flow_ctrl {
            None => (index, 0),
            Some(fc) => {
                let mut next = index;
                if fc.block_size != 0 {
                    if index >= fc.block_size as usize - 1 {
                        next = 0;
                        self.state.append(STATE_WAIT_FLOW_CTRL);
                    } else {
                        next = index + 1;
                    }
                }
                (next, fc.st_min_us())
            },
        }
    }

    /// What a sender that has waited `elapsed_ms` does next: fail on an error
    /// or a timeout of the flag it waits on, keep waiting, or go on.
    pub fn wait_verdict(&self, elapsed_ms: u64) -> (r: WaitVerdict)
        ensures
            r == wait_verdict_spec(self.state.bits, elapsed_ms, (self.context.p2_ctx.p2_star_spec() as u64 * 10) as u64),
    {
        if self.state.contains(STATE_ERROR) {
            WaitVerdict::Failed(Iso15765Error::DeviceError)
        } else if self.state.contains(STATE_SENDING) {
            if elapsed_ms > TIMEOUT_AS_ISO15765_2 {
                WaitVerdict::Failed(Iso15765Error::Timeout { value: TIMEOUT_AS_ISO15765_2 })
            } else {
                WaitVerdict::Pending
            }
        } else if self.state.contains(STATE_WAIT_BUSY) {
            let p2_star = self.context.p2_ctx.p2_star_ms();
            if elapsed_ms > p2_star {
                WaitVerdict::Failed(Iso15765Error::Timeout { value: p2_star })
            } else {
                WaitVerdict::Pending
            }
        } else if self.state.contains(STATE_WAIT_FLOW_CTRL) {
            if elapsed_ms > TIMEOUT_CR_ISO15765_2 {
                WaitVerdict::Failed(Iso15765Error::Timeout { value: TIMEOUT_CR_ISO15765_2 })
            } else {
                WaitVerdict::Pending
            }
        } else {
            WaitVerdict::Proceed
        }
    }

    /// The driver confirmed a frame with identifier `id` on `channel`: a
    /// frame of this channel's own clears the sending flag.
    pub fn on_frame_transmitted(&mut self, channel: u8, id: u32)
        ensures
            final(self).state.bits == (if channel == old(self).channel && (id == old(self).address.tx_id
                || id == old(self).address.fid) {
                old(self).state.bits & !STATE_SENDING
            } else {
                old(self).state.bits
            }),
            final(self).context == old(self).context,
            final(self).address == old(self).address,
            final(self).channel == old(self).channel,
    {
        if channel == self.channel && (id == self.address.tx_id || id == self.address.fid) {
            self.state.remove(STATE_SENDING);
        }
    }

    /// The reply to a first frame could not be sent: the channel fails.
    pub fn on_reply_failed(&mut self) -> (r: IsoTpEvent)
        ensures
            final(self).state.bits == STATE_ERROR,
            r == IsoTpEvent::ErrorOccurred(Iso15765Error::DeviceError),
            final(self).context == old(self).context,
            final(self).address == old(self).address,
            final(self).channel == old(self).channel,
    {
        proof {
            lemma_flag_bits();
        }
        self.state.append(STATE_ERROR);
        IsoTpEvent::ErrorOccurred(Iso15765Error::DeviceError)
    }

    /// A single frame: its payload is a whole message.
    pub fn on_single_frame(&self, data: Vec<u8>) -> (r: Reaction)
        ensures
            event_of(r.event) == Some(EventModel::DataReceived(data@)),
            r.reply is None,
    {
        Reaction { event: Some(IsoTpEvent::DataReceived(data)), reply: None }
    }

    /// A first frame: reassembly starts and a default flow control answers it,
    /// sent on this channel to the physical transmit identifier.
    pub fn on_first_frame(&mut self, length: u32, data: Vec<u8>) -> (r: Reaction)
        ensures
            final(self).context.reassembly() == started_reassembly(length, data@),
            final(self).context.flow_ctrl == old(self).context.flow_ctrl,
            final(self).context.p2_ctx == old(self).context.p2_ctx,
            final(self).state.bits == appended_bits(old(self).state.bits, STATE_SENDING),
            final(self).address == old(self).address,
            final(self).channel == old(self).channel,
            event_of(r.event) == Some(EventModel::FirstFrameReceived),
            reply_of(r.reply) == Some((old(self).address.tx_id, old(self).channel, default_flow_ctrl_model())),
    {
        self.context.update_consecutive(length, data);
        self.state.append(STATE_SENDING);
        let reply = Reply { id: self.address.tx_id, channel: self.channel, frame: IsoTpFrame::default_flow_ctrl_frame() };
        Reaction { event: Some(IsoTpEvent::FirstFrameReceived), reply: Some(reply) }
    }

    /// A consecutive frame: appended in sequence, the whole message once
    /// complete; out of sequence the channel fails.
    pub fn on_consecutive_frame(&mut self, sequence: u8, data: Vec<u8>) -> (r: Reaction)
        ensures
            ({
                let (c, out) = reassembly_step(old(self).context.reassembly(), sequence, data@);
                &&& final(self).context.reassembly() == c
                &&& match out {
                    Ok(Some(m)) => event_of(r.event) == Some(EventModel::DataReceived(m))
                        && final(self).state == old(self).state,
                    Ok(None) => r.event is None && final(self).state == old(self).state,
                    Err(e) => event_of(r.event) == Some(EventModel::ErrorOccurred(e))
                        && final(self).state.bits == STATE_ERROR,
                }
            }),
            r.reply is None,
            final(self).context.flow_ctrl == old(self).context.flow_ctrl,
            final(self).context.p2_ctx == old(self).context.p2_ctx,
            final(self).address == old(self).address,
            final(self).channel == old(self).channel,
    {
        proof {
            lemma_flag_bits();
        }
        match self.context.append_consecutive(sequence, data) {
            Ok(Some(message)) => Reaction { event: Some(IsoTpEvent::DataReceived(message)), reply: None },
            Ok(None) => Reaction { event: None, reply: None },
            Err(e) => {
                self.state.append(STATE_ERROR);
                Reaction { event: Some(IsoTpEvent::ErrorOccurred(e)), reply: None }
            },
        }
    }

    /// A flow control frame: continue clears both waits and records the
    /// block size and separation time; wait sets the busy flag; overflow fails.
    pub fn on_flow_ctrl_frame(&mut self, ctx: FlowControlContext) -> (r: Reaction)
        ensures
            r.reply is None,
            final(self).context.reassembly() == old(self).context.reassembly(),
            final(self).context.p2_ctx == old(self).context.p2_ctx,
            final(self).address == old(self).address,
            final(self).channel == old(self).channel,
            match ctx.state {
                FlowControlState::Continues => {
                    &&& final(self).state.bits == old(self).state.bits & !((STATE_WAIT_BUSY | STATE_WAIT_FLOW_CTRL) as u8)
                    &&& final(self).context.flow_ctrl == Some(ctx)
                    &&& r.event is None
                },
                FlowControlState::Wait => {
                    &&& final(self).state.bits == appended_bits(old(self).state.bits, STATE_WAIT_BUSY)
                    &&& final(self).context.flow_ctrl == old(self).context.flow_ctrl
                    &&& event_of(r.event) == Some(EventModel::Wait)
                },
                FlowControlState::Overload => {
                    &&& final(self).state.bits == STATE_ERROR
                    &&& final(self).context.flow_ctrl == old(self).context.flow_ctrl
                    &&& event_of(r.event) == Some(EventModel::ErrorOccurred(IsoTpErrorModel::OverloadFlow))
                },
            },
    {
        proof {
            lemma_flag_bits();
        }
        match ctx.state {
            FlowControlState::Continues => {
                self.state.remove(STATE_WAIT_BUSY | STATE_WAIT_FLOW_CTRL);
                self.context.update_flow_ctrl(ctx);
                Reaction { event: None, reply: None }
            },
            FlowControlState::Wait => {
                self.state.append(STATE_WAIT_BUSY);
                Reaction { event: Some(IsoTpEvent::Wait), reply: None }
            },
            FlowControlState::Overload => {
                self.state.append(STATE_ERROR);
                Reaction { event: Some(IsoTpEvent::ErrorOccurred(Iso15765Error::OverloadFlow)), reply: None }
            },
        }
    }

    /// A CAN frame arrived on `channel` with identifier `id` and payload
    /// `data`. Frames of another channel or identifier, and every frame while
    /// the channel has failed, are ignored; bytes that do not decode fail it.
    pub fn on_frame_received(&mut self, channel: u8, id: u32, data: &[u8]) -> (r: Reaction)
        ensures
            r.reply is Some ==> reply_of(r.reply) == Some(
                (old(self).address.tx_id, old(self).channel, default_flow_ctrl_model()),
            ),
            final(self).address == old(self).address,
            final(self).channel == old(self).channel,
            (channel != old(self).channel || old(self).state.bits & STATE_ERROR != 0 || id != old(self).address.rx_id)
                ==> (*final(self) == *old(self) && r.event is None && r.reply is None),
            (channel == old(self).channel && old(self).state.bits & STATE_ERROR == 0 && id == old(self).address.rx_id)
                ==> match decode_spec(data@) {
                Err(e) => final(self).state.bits == STATE_ERROR
                    && event_of(r.event) == Some(EventModel::ErrorOccurred(e)) && r.reply is None,
                Ok(FrameModel::Single { data: d }) => *final(self) == *old(self)
                    && event_of(r.event) == Some(EventModel::DataReceived(d)) && r.reply is None,
                Ok(FrameModel::First { length, data: d }) => {
                    &&& final(self).context.reassembly() == started_reassembly(length, d)
                    &&& final(self).state.bits == appended_bits(old(self).state.bits, STATE_SENDING)
                    &&& event_of(r.event) == Some(EventModel::FirstFrameReceived)
                    &&& reply_of(r.reply) == Some(
                        (old(self).address.tx_id, old(self).channel, default_flow_ctrl_model()),
                    )
                },
                Ok(FrameModel::Consecutive { sequence, data: d }) => {
                    let (c, out) = reassembly_step(old(self).context.reassembly(), sequence, d);
                    &&& final(self).context.reassembly() == c
                    &&& r.reply is None
                    &&& final(self).context.flow_ctrl == old(self).context.flow_ctrl
                    &&& match out {
                        Ok(Some(m)) => event_of(r.event) == Some(EventModel::DataReceived(m))
                            && final(self).state == old(self).state,
                        Ok(None) => r.event is None && final(self).state == old(self).state,
                        Err(e) => event_of(r.event) == Some(EventModel::ErrorOccurred(e))
                            && final(self).state.bits == STATE_ERROR,
                    }
                },
                Ok(FrameModel::FlowControl(fc)) => {
                    &&& final(self).context.reassembly() == old(self).context.reassembly()
                    &&& r.reply is None
                    &&& match fc.state {
                        FlowControlState::Continues => final(self).context.flow_ctrl == Some(fc)
                            && r.event is None && final(self).state.bits == old(self).state.bits & !(
                        (STATE_WAIT_BUSY | STATE_WAIT_FLOW_CTRL) as u8),
                        FlowControlState::Wait => event_of(r.event) == Some(EventModel::Wait)
                            && final(self).state.bits == appended_bits(old(self).state.bits, STATE_WAIT_BUSY)
                            && final(self).context.flow_ctrl == old(self).context.flow_ctrl,
                        FlowControlState::Overload => final(self).state.bits == STATE_ERROR && event_of(r.event)
                            == Some(EventModel::ErrorOccurred(IsoTpErrorModel::OverloadFlow))
                            && final(self).context.flow_ctrl == old(self).context.flow_ctrl,
                    }
                },
            },
    {
        proof {
            lemma_flag_bits();
        }
        if channel != self.channel || self.state.contains(STATE_ERROR) || id != self.address.rx_id {
            return Reaction { event: None, reply: None };
        }
        match IsoTpFrame::decode(data) {
            Ok(frame) => match frame {
                IsoTpFrame::SingleFrame { data } => self.on_single_frame(data),
                IsoTpFrame::FirstFrame { length, data } => self.on_first_frame(length, data),
                IsoTpFrame::ConsecutiveFrame { sequence, data } => self.on_consecutive_frame(sequence, data),
                IsoTpFrame::FlowControlFrame(ctx) => self.on_flow_ctrl_frame(ctx),
            },
            Err(e) => {
                self.state.append(STATE_ERROR);
                Reaction { event: Some(IsoTpEvent::ErrorOccurred(e)), reply: None }
            },
        }
    }
}

} // verus!
