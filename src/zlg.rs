use vstd::prelude::*;
use crate::constants::{EFF_MASK, ID_FLAG_ERROR, ID_FLAG_EXTENDED, ID_FLAG_REMOTE, MAX_FD_FRAME_SIZE, MAX_FRAME_SIZE};
use crate::error::CanError;
use crate::frame::{same_frame, CanMessage, Direct};
use crate::identifier::{id_bits, Id};
use crate::utils::{can_type_of, resized, CanType};

verus! {

/// Flag bit of an FD wire frame: bit rate switch.
pub const CANFD_BRS: u8 = 0x01;

/// Flag bit of an FD wire frame: error state indicator.
pub const CANFD_ESI: u8 = 0x02;

/// The error for a code that names no variant.
fn unsupported() -> (r: CanError)
    ensures
        r matches CanError::OtherError(m) && m@ == "parameter not supported"@,
{
    CanError::other_error("parameter not supported")
}

/// The frame types a vendor device is asked to receive.
#[derive(Debug, Clone, Copy, PartialEq, Eq, Structural)]
pub enum ZCanFrameType {
    CAN,
    CANFD,
    ALL,
}

impl ZCanFrameType {
    /// The wire code (0, 1, 2).
    pub fn code(&self) -> (r: u8)
        ensures
            r == (match *self {
                ZCanFrameType::CAN => 0u8,
                ZCanFrameType::CANFD => 1u8,
                ZCanFrameType::ALL => 2u8,
            }),
    {
        match self {
            ZCanFrameType::CAN => 0,
            ZCanFrameType::CANFD => 1,
            ZCanFrameType::ALL => 2,
        }
    }

    /// The type for a wire code; an error for any other value.
    pub fn try_from(value: u8) -> (r: Result<ZCanFrameType, CanError>)
        ensures
            value == 0 ==> r == Ok::<ZCanFrameType, CanError>(ZCanFrameType::CAN),
            value == 1 ==> r == Ok::<ZCanFrameType, CanError>(ZCanFrameType::CANFD),
            value == 2 ==> r == Ok::<ZCanFrameType, CanError>(ZCanFrameType::ALL),
            value > 2 ==> r is Err,
    {
        match value {
            0 => Ok(ZCanFrameType::CAN),
            1 => Ok(ZCanFrameType::CANFD),
            2 => Ok(ZCanFrameType::ALL),
            _ => Err(unsupported()),
        }
    }

    /// The display name.
    pub fn as_str(&self) -> (r: &'static str)
        ensures
            r@ == (match *self {
                ZCanFrameType::CAN => "CAN"@,
                ZCanFrameType::CANFD => "CANFD"@,
                ZCanFrameType::ALL => "CAN|CANFD"@,
            }),
    {
        match self {
            ZCanFrameType::CAN => "CAN",
            ZCanFrameType::CANFD => "CANFD",
            ZCanFrameType::ALL => "CAN|CANFD",
        }
    }
}

/// How a vendor device transmits a frame.
#[derive(Debug, Clone, Copy, PartialEq, Eq, Structural)]
pub enum ZCanTxMode {
    Normal,
    Once,
    SelfReception,
    SelfReceptionOnce,
}

impl ZCanTxMode {
    /// The wire code (0 to 3).
    pub fn code(&self) -> (r: u8)
        ensures
            r == (match *self {
                ZCanTxMode::Normal => 0u8,
                ZCanTxMode::Once => 1u8,
                ZCanTxMode::SelfReception => 2u8,
                ZCanTxMode::SelfReceptionOnce => 3u8,
            }),
    {
        match self {
            ZCanTxMode::Normal => 0,
            ZCanTxMode::Once => 1,
            ZCanTxMode::SelfReception => 2,
            ZCanTxMode::SelfReceptionOnce => 3,
        }
    }

    /// The mode for a wire code; an error above 3.
    pub fn try_from(value: u8) -> (r: Result<ZCanTxMode, CanError>)
        ensures
            value == 0 ==> r == Ok::<ZCanTxMode, CanError>(ZCanTxMode::Normal),
            value == 1 ==> r == Ok::<ZCanTxMode, CanError>(ZCanTxMode::Once),
            value == 2 ==> r == Ok::<ZCanTxMode, CanError>(ZCanTxMode::SelfReception),
            value == 3 ==> r == Ok::<ZCanTxMode, CanError>(ZCanTxMode::SelfReceptionOnce),
            value > 3 ==> r is Err,
    {
        match value {
            0 => Ok(ZCanTxMode::Normal),
            1 => Ok(ZCanTxMode::Once),
            2 => Ok(ZCanTxMode::SelfReception),
            3 => Ok(ZCanTxMode::SelfReceptionOnce),
            _ => Err(unsupported()),
        }
    }
}

impl Default for ZCanTxMode {
    fn default() -> (r: ZCanTxMode)
        ensures
            r == ZCanTxMode::Normal,
    {
        ZCanTxMode::Normal
    }
}

/// A vendor wire frame: the identifier with its flag bits, the length, the
/// FD flags, the channel, and a payload slot of 8 (classic) or 64 (FD) bytes.
#[derive(Debug, Clone)]
pub struct ZCanMsg20 {
    pub can_id: u32,
    pub can_len: u8,
    pub flags: u8,
    /// Reserved on the wire; carries the channel.
    pub channel: u8,
    pub reserved: u8,
    pub data: Vec<u8>,
}

/// A wire frame's payload slot is a classic or an FD one.
pub open spec fn slot_ok(slot: nat) -> bool {
    slot == MAX_FRAME_SIZE || slot == MAX_FD_FRAME_SIZE
}

/// The raw identifier of a message with its format, remote and error flags.
pub open spec fn id_with_flags(m: &CanMessage) -> u32 {
    m.arbitration_id | (if m.is_extended_id { ID_FLAG_EXTENDED } else { 0 }) | (if m.is_remote_frame {
        ID_FLAG_REMOTE
    } else {
        0
    }) | (if m.is_error_frame { ID_FLAG_ERROR } else { 0 })
}

/// What `CanMessage::new` gives for identifier `id` and payload `d`.
pub open spec fn new_message(m: CanMessage, id: Id, d: Seq<u8>) -> bool {
    &&& can_type_of(d.len()) is Some
    &&& m.arbitration_id == id_bits(id)
    &&& m.is_extended_id == (id is Extended)
    &&& !m.is_remote_frame && !m.is_error_frame
    &&& m.length == d.len()
    &&& m.data@ == d
    &&& !m.bitrate_switch && !m.error_state_indicator
}

/// What `ZCanMsg20::from_message` gives for `m` and a slot of `slot` bytes.
pub open spec fn encoded(w: ZCanMsg20, m: CanMessage, slot: nat) -> bool {
    &&& w.can_id == id_with_flags(&m)
    &&& w.can_len == m.data@.len() as u8
    &&& w.flags == (if slot > MAX_FRAME_SIZE {
        (if m.bitrate_switch { CANFD_BRS } else { 0u8 }) | (if m.error_state_indicator { CANFD_ESI } else { 0u8 })
    } else {
        0u8
    })
    &&& w.channel == 0
    &&& w.data@ == resized(m.data@, slot, 0)
}

/// What `ZCanMsg20::into_message` gives for `w`.
pub open spec fn decoded(r: CanMessage, w: ZCanMsg20) -> bool {
    &&& r.timestamp == 0
    &&& r.arbitration_id == w.can_id & EFF_MASK
    &&& r.is_extended_id == (w.can_id & ID_FLAG_EXTENDED != 0)
    &&& r.is_remote_frame == (w.can_id & ID_FLAG_REMOTE != 0)
    &&& r.is_error_frame == (w.can_id & ID_FLAG_ERROR != 0)
    &&& r.channel == w.channel
    &&& r.length == w.can_len as usize
    &&& r.data@ == resized(w.data@, w.can_len as nat, 0)
    &&& r.can_type == (if w.data@.len() == MAX_FRAME_SIZE { CanType::Can } else { CanType::CanFd })
    &&& r.direct == Direct::Receive
    &&& r.bitrate_switch == (w.data@.len() == MAX_FD_FRAME_SIZE && w.flags & CANFD_BRS != 0)
    &&& r.error_state_indicator == (w.data@.len() == MAX_FD_FRAME_SIZE && w.flags & CANFD_ESI != 0)
    &&& r.tx_mode is None
}

/// The raw identifier of `msg` with the flag bits for its format, remote and error state.
fn can_id_add_flags(msg: &CanMessage) -> (r: u32)
    ensures
        r == id_with_flags(msg),
{
    msg.arbitration_id | (if msg.is_extended_id { ID_FLAG_EXTENDED } else { 0 }) | (if msg.is_remote_frame {
        ID_FLAG_REMOTE
    } else {
        0
    }) | (if msg.is_error_frame { ID_FLAG_ERROR } else { 0 })
}

impl ZCanMsg20 {
    /// A wire frame of the given parts on channel 0.
    pub fn new(can_id: u32, can_len: u8, flags: u8, data: Vec<u8>) -> (r: ZCanMsg20)
        ensures
            r.can_id == can_id,
            r.can_len == can_len,
            r.flags == flags,
            r.channel == 0,
            r.reserved == 0,
            r.data@ == data@,
    {
        ZCanMsg20 { can_id, can_len, flags, channel: 0, reserved: 0, data }
    }

    /// Sets the channel byte.
    pub fn set_channel(&mut self, channel: u8)
        ensures
            final(self).channel == channel,
            final(self).can_id == old(self).can_id,
            final(self).can_len == old(self).can_len,
            final(self).flags == old(self).flags,
            final(self).data@ == old(self).data@,
    {
        self.channel = channel;
    }

    /// The channel byte.
    pub fn get_channel(&self) -> (r: u8)
        ensures
            r == self.channel,
    {
        self.channel
    }

    /// Encodes `msg` into a wire frame with a payload slot of `slot` bytes:
    /// the identifier gets its flag bits, the payload is zero-extended to the slot,
    /// and an FD slot carries the bit rate switch and error state flags.
    pub fn from_message(msg: CanMessage, slot: usize) -> (r: ZCanMsg20)
        requires
            slot_ok(slot as nat),
        ensures
            encoded(r, msg, slot as nat),
    {
        let is_fd = slot > MAX_FRAME_SIZE;
        let can_id = can_id_add_flags(&msg);
        let length = msg.data.len() as u8;
        let flags = if is_fd {
            (if msg.bitrate_switch { CANFD_BRS } else { 0 }) | (if msg.error_state_indicator { CANFD_ESI } else { 0 })
        } else {
            0
        };
        let mut data = msg.data;
        crate::utils::resize_with(&mut data, slot, 0);
        ZCanMsg20::new(can_id, length, flags, data)
    }

    /// Decodes a wire frame into a received message: the identifier loses
    /// its flag bits, which become the message's flags; the payload is cut
    /// to the length; the frame kind follows the slot size.
    pub fn into_message(self) -> (r: CanMessage)
        requires
            slot_ok(self.data@.len()),
        ensures
            decoded(r, self),
    {
        let is_fd = self.data.len() == MAX_FD_FRAME_SIZE;
        let can_id = self.can_id;
        let length = self.can_len as usize;
        let mut data = self.data;
        crate::utils::resize_with(&mut data, length, 0);
        CanMessage {
            timestamp: 0,
            arbitration_id: can_id & EFF_MASK,
            is_extended_id: can_id & ID_FLAG_EXTENDED != 0,
            is_remote_frame: can_id & ID_FLAG_REMOTE != 0,
            is_error_frame: can_id & ID_FLAG_ERROR != 0,
            channel: self.channel,
            length,
            data,
            can_type: if is_fd { CanType::CanFd } else { CanType::Can },
            direct: Direct::Receive,
            bitrate_switch: is_fd && self.flags & CANFD_BRS != 0,
            error_state_indicator: is_fd && self.flags & CANFD_ESI != 0,
            tx_mode: None,
        }
    }
}

/// A message made from an identifier and at most one slot of payload comes
/// back as the same frame from the wire: encoding it into a classic slot
/// (payload up to 8 bytes) or an FD slot (up to 64) and decoding the result
/// keeps everything but its timestamp, channel, direction and tx mode.
pub proof fn lemma_wire_round_trip(id: Id, d: Seq<u8>, slot: nat, m: CanMessage, w: ZCanMsg20, back: CanMessage)
    requires
        slot_ok(slot),
        d.len() <= slot,
        id_bits(id) <= EFF_MASK,
        new_message(m, id, d),
        encoded(w, m, slot),
        decoded(back, w),
    ensures
        same_frame(&back, &m),
{
    let a = m.arbitration_id;
    assert(a <= 0x1FFF_FFFFu32 ==> ((a | 0x8000_0000u32 | 0u32 | 0u32) & 0x1FFF_FFFFu32 == a && (a
        | 0x8000_0000u32 | 0u32 | 0u32) & 0x8000_0000u32 != 0 && (a | 0x8000_0000u32 | 0u32 | 0u32)
        & 0x4000_0000u32 == 0 && (a | 0x8000_0000u32 | 0u32 | 0u32) & 0x2000_0000u32 == 0)) by (bit_vector);
    assert(a <= 0x1FFF_FFFFu32 ==> ((a | 0u32 | 0u32 | 0u32) & 0x1FFF_FFFFu32 == a && (a | 0u32 | 0u32 | 0u32)
        & 0x8000_0000u32 == 0 && (a | 0u32 | 0u32 | 0u32) & 0x4000_0000u32 == 0 && (a | 0u32 | 0u32 | 0u32)
        & 0x2000_0000u32 == 0)) by (bit_vector);
    assert((0u8 | 0u8) & 2u8 == 0) by (bit_vector);
    assert(resized(resized(d, slot, 0), d.len(), 0) =~= d);
}

/// The time flag of a USBCAN frame whose timestamp is valid.
pub const TIME_FLAG_VALID: u8 = 1;

/// A classic frame as the USBCAN library lays it out: identifier without
/// flags, device timestamp, separate remote and extended flags, an 8-byte
/// payload slot and the channel.
#[derive(Debug, Clone)]
pub struct ZCanFrameVCI {
    pub can_id: u32,
    pub timestamp: u32,
    pub time_flag: u8,
    pub tx_mode: u8,
    pub rem_flag: u8,
    pub ext_flag: u8,
    pub can_len: u8,
    pub data: Vec<u8>,
    pub channel: u8,
}

impl ZCanFrameVCI {
    /// Encodes `msg`: its flags become bytes, its payload is zero-extended
    /// to the 8-byte slot, and its timestamp is marked valid.
    pub fn from_message(msg: CanMessage) -> (r: ZCanFrameVCI)
        ensures
            r.can_id == msg.arbitration_id,
            r.timestamp == msg.timestamp as u32,
            r.time_flag == TIME_FLAG_VALID,
            r.tx_mode == (match msg.tx_mode {
                Some(m) => m,
                None => crate::frame::DEFAULT_TX_MODE,
            }),
            r.rem_flag == (if msg.is_remote_frame { 1u8 } else { 0u8 }),
            r.ext_flag == (if msg.is_extended_id { 1u8 } else { 0u8 }),
            r.can_len == msg.length as u8,
            r.data@ == resized(msg.data@, MAX_FRAME_SIZE as nat, 0),
            r.channel == msg.channel,
    {
        let tx_mode = msg.tx_mode();
        let mut data = msg.data;
        crate::utils::resize_with(&mut data, MAX_FRAME_SIZE, 0);
        ZCanFrameVCI {
            can_id: msg.arbitration_id,
            timestamp: msg.timestamp as u32,
            time_flag: TIME_FLAG_VALID,
            tx_mode,
            rem_flag: if msg.is_remote_frame { 1 } else { 0 },
            ext_flag: if msg.is_extended_id { 1 } else { 0 },
            can_len: msg.length as u8,
            data,
            channel: msg.channel,
        }
    }

    /// Decodes a received frame: the flags bytes become flags and the
    /// payload is cut (or zero-filled) to the length.
    pub fn into_message(self) -> (r: CanMessage)
        ensures
            r.timestamp == self.timestamp as u64,
            r.arbitration_id == self.can_id,
            r.is_extended_id == (self.ext_flag > 0),
            r.is_remote_frame == (self.rem_flag > 0),
            !r.is_error_frame,
            r.channel == self.channel,
            r.length == self.can_len as usize,
            r.data@ == resized(self.data@, self.can_len as nat, 0),
            r.can_type == CanType::Can,
            r.direct == Direct::Receive,
            !r.bitrate_switch && !r.error_state_indicator,
            r.tx_mode is None,
    {
        let length = self.can_len as usize;
        let mut data = self.data;
        crate::utils::resize_with(&mut data, length, 0);
        CanMessage {
            timestamp: self.timestamp as u64,
            arbitration_id: self.can_id,
            is_extended_id: self.ext_flag > 0,
            is_remote_frame: self.rem_flag > 0,
            is_error_frame: false,
            channel: self.channel,
            length,
            data,
            can_type: CanType::Can,
            direct: Direct::Receive,
            bitrate_switch: false,
            error_state_indicator: false,
            tx_mode: None,
        }
    }
}

/// A white-list range of identifiers of a USBCAN-E device.
#[derive(Debug, Clone, Copy, PartialEq, Eq, Structural)]
pub struct USBCanEUWhiteList {
    pub is_extend: bool,
    pub start: u32,
    pub stop: u32,
}

/// A device reference register of the Linux library.
#[derive(Debug, Clone, Copy, PartialEq, Eq, Structural)]
pub enum Reference {
    /// Filter setting.
    Filter,
    /// Timed send setting.
    SkdSend,
    /// Timed send status (0 disabled, 1 enabled).
    SkdSendStatus,
    /// Terminal resistance (0 disabled, 1 enabled).
    Resistance,
    /// Send timeout, 0 to 4000 ms.
    Timeout,
}

impl Reference {
    /// The register number.
    pub fn code(&self) -> (r: u32)
        ensures
            r == (match *self {
                Reference::Filter => 0x14u32,
                Reference::SkdSend => 0x16u32,
                Reference::SkdSendStatus => 0x17u32,
                Reference::Resistance => 0x18u32,
                Reference::Timeout => 0x44u32,
            }),
    {
        match self {
            Reference::Filter => 0x14,
            Reference::SkdSend => 0x16,
            Reference::SkdSendStatus => 0x17,
            Reference::Resistance => 0x18,
            Reference::Timeout => 0x44,
        }
    }
}

/// The role of a LIN channel.
#[derive(Debug, Clone, Copy, PartialEq, Eq, Structural)]
pub enum ZLinMode {
    Slave,
    Master,
}

impl ZLinMode {
    /// The mode for a code (0 slave, 1 master); an error above 1.
    pub fn try_from(value: u8) -> (r: Result<ZLinMode, CanError>)
        ensures
            value == 0 ==> r == Ok::<ZLinMode, CanError>(ZLinMode::Slave),
            value == 1 ==> r == Ok::<ZLinMode, CanError>(ZLinMode::Master),
            value > 1 ==> r is Err,
    {
        match value {
            0 => Ok(ZLinMode::Slave),
            1 => Ok(ZLinMode::Master),
            _ => Err(unsupported()),
        }
    }
}

/// What a received LIN record holds.
#[derive(Debug, Clone, Copy, PartialEq, Eq, Structural)]
pub enum ZLinDataType {
    TypeData,
    TypeError,
    TypeEvent,
}

impl ZLinDataType {
    /// The type for a code (0 to 2); an error above 2.
    pub fn try_from(value: u8) -> (r: Result<ZLinDataType, CanError>)
        ensures
            value == 0 ==> r == Ok::<ZLinDataType, CanError>(ZLinDataType::TypeData),
            value == 1 ==> r == Ok::<ZLinDataType, CanError>(ZLinDataType::TypeError),
            value == 2 ==> r == Ok::<ZLinDataType, CanError>(ZLinDataType::TypeEvent),
            value > 2 ==> r is Err,
    {
        match value {
            0 => Ok(ZLinDataType::TypeData),
            1 => Ok(ZLinDataType::TypeError),
            2 => Ok(ZLinDataType::TypeEvent),
            _ => Err(unsupported()),
        }
    }
}

/// A LIN bus event.
#[derive(Debug, Clone, Copy, PartialEq, Eq, Structural)]
pub enum ZLinEventType {
    Wakeup,
    EnterSleep,
    ExitSleep,
}

impl ZLinEventType {
    /// The event for a code (0 to 2); an error above 2.
    pub fn try_from(value: u8) -> (r: Result<ZLinEventType, CanError>)
        ensures
            value == 0 ==> r == Ok::<ZLinEventType, CanError>(ZLinEventType::Wakeup),
            value == 1 ==> r == Ok::<ZLinEventType, CanError>(ZLinEventType::EnterSleep),
            value == 2 ==> r == Ok::<ZLinEventType, CanError>(ZLinEventType::ExitSleep),
            value > 2 ==> r is Err,
    {
        match value {
            0 => Ok(ZLinEventType::Wakeup),
            1 => Ok(ZLinEventType::EnterSleep),
            2 => Ok(ZLinEventType::ExitSleep),
            _ => Err(unsupported()),
        }
    }
}

/// The checksum a LIN frame uses.
#[derive(Debug, Clone, Copy, PartialEq, Eq, Structural)]
pub enum ZLinCheckSumMode {
    Classic,
    Enhance,
    Auto,
}

impl ZLinCheckSumMode {
    /// The mode for a code (0 to 2); an error above 2.
    pub fn try_from(value: u8) -> (r: Result<ZLinCheckSumMode, CanError>)
        ensures
            value == 0 ==> r == Ok::<ZLinCheckSumMode, CanError>(ZLinCheckSumMode::Classic),
            value == 1 ==> r == Ok::<ZLinCheckSumMode, CanError>(ZLinCheckSumMode::Enhance),
            value == 2 ==> r == Ok::<ZLinCheckSumMode, CanError>(ZLinCheckSumMode::Auto),
            value > 2 ==> r is Err,
    {
        match value {
            0 => Ok(ZLinCheckSumMode::Classic),
            1 => Ok(ZLinCheckSumMode::Enhance),
            2 => Ok(ZLinCheckSumMode::Auto),
            _ => Err(unsupported()),
        }
    }
}

/// A device timestamp moved onto the host clock: the frame's device time
/// plus the offset `fix_timestamp`.
pub fn fix_system_time(frame_timestamp: u64, fix_timestamp: u64) -> (r: u64)
    requires
        frame_timestamp + fix_timestamp <= u64::MAX,
    ensures
        r == frame_timestamp + fix_timestamp,
{
    frame_timestamp + fix_timestamp
}

/// The offset between the host clock reading `now` and a device clock that
/// reads `fix_timestamp`; 0 where the device clock is ahead.
pub fn device_time_offset(now: u64, fix_timestamp: u64) -> (r: u64)
    ensures
        r == (if now >= fix_timestamp { (now - fix_timestamp) as u64 } else { 0 }),
{
    if now >= fix_timestamp {
        now - fix_timestamp
    } else {
        0
    }
}

/// The offset between the host clock now and a device clock that reads
/// `fix_timestamp`; what the clock reads is not known here.
pub fn fix_device_time(fix_timestamp: u64) -> (r: u64)
    ensures
        r == 0 || r + fix_timestamp <= u64::MAX,
{
    device_time_offset(crate::utils::system_timestamp(), fix_timestamp)
}

} // verus!
