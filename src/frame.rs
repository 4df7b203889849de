use vstd::prelude::*;
use crate::constants::{MAX_FD_FRAME_SIZE, MAX_FRAME_SIZE, MAX_XL_FRAME_SIZE};
use crate::identifier::{id_bits, id_from_bits, Id};
use crate::utils::{can_dlc, can_type, can_type_of, dlc_of, CanType};

verus! {

/// Whether a frame was sent or received.
#[derive(Debug, Clone, Copy, PartialEq, Eq, Structural)]
pub enum Direct {
    Transmit,
    Receive,
}

impl Default for Direct {
    fn default() -> (r: Direct)
        ensures
            r == Direct::Transmit,
    {
        Direct::Transmit
    }
}

impl Direct {
    /// The short name of the direction, as trace files write it.
    pub fn as_str(&self) -> (r: &'static str)
        ensures
            r@ == (match *self {
                Direct::Transmit => "Tx"@,
                Direct::Receive => "Rx"@,
            }),
    {
        match self {
            Direct::Transmit => "Tx",
            Direct::Receive => "Rx",
        }
    }
}

/// The tx mode used where a message sets none (normal transmission).
pub const DEFAULT_TX_MODE: u8 = 0;

/// A CAN message as the layer above the drivers sees it.
#[derive(Debug, Clone)]
pub struct CanMessage {
    /// Milliseconds since the epoch, or since the device started.
    pub timestamp: u64,
    /// The identifier without flag bits.
    pub arbitration_id: u32,
    pub is_extended_id: bool,
    pub is_remote_frame: bool,
    pub is_error_frame: bool,
    /// The driver channel.
    pub channel: u8,
    /// The declared length (for a remote frame, the requested length).
    pub length: usize,
    pub data: Vec<u8>,
    pub can_type: CanType,
    pub direct: Direct,
    pub bitrate_switch: bool,
    pub error_state_indicator: bool,
    /// The vendor transmit mode, if one was set.
    pub tx_mode: Option<u8>,
}

/// The largest payload of a frame of kind `t`.
pub open spec fn max_len_of(t: CanType) -> nat {
    match t {
        CanType::Can => MAX_FRAME_SIZE as nat,
        CanType::CanFd => MAX_FD_FRAME_SIZE as nat,
        CanType::CanXl => MAX_XL_FRAME_SIZE as nat,
    }
}

/// When two messages count as the same frame: the same length and, both
/// being remote frames, the same identifier; both being data frames, the same
/// identifier, format, error and error-state flags and payload.
pub open spec fn same_frame(a: &CanMessage, b: &CanMessage) -> bool {
    a.length == b.length && if a.is_remote_frame {
        b.is_remote_frame && a.arbitration_id == b.arbitration_id
    } else {
        !b.is_remote_frame && a.arbitration_id == b.arbitration_id && a.is_extended_id == b.is_extended_id
            && a.is_error_frame
            == b.is_error_frame && a.error_state_indicator == b.error_state_indicator && a.data@ == b.data@
    }
}

/// Whether two byte strings are equal.
fn bytes_equal(a: &[u8], b: &[u8]) -> (r: bool)
    ensures
        r == (a@ == b@),
{
    if a.len() != b.len() {
        return false;
    }
    let mut i: usize = 0;
    while i < a.len()
        invariant
            a@.len() == b@.len(),
            i <= a@.len(),
            a@.subrange(0, i as int) == b@.subrange(0, i as int),
        decreases a@.len() - i,
    {
        if a[i] != b[i] {
            assert(a@[i as int] != b@[i as int]);
            return false;
        }
        assert(a@.subrange(0, i + 1 as int) =~= a@.subrange(0, i as int).push(a@[i as int]));
        assert(b@.subrange(0, i + 1 as int) =~= b@.subrange(0, i as int).push(b@[i as int]));
        i += 1;
    }
    assert(a@ =~= a@.subrange(0, a@.len() as int));
    assert(b@ =~= b@.subrange(0, b@.len() as int));
    true
}

impl PartialEq for CanMessage {
    fn eq(&self, other: &CanMessage) -> (r: bool)
        ensures
            r == same_frame(self, other),
    {
        if self.length != other.length {
            return false;
        }
        if self.is_remote_frame {
            other.is_remote_frame && self.arbitration_id == other.arbitration_id
        } else {
            !other.is_remote_frame && self.arbitration_id == other.arbitration_id && self.is_extended_id
                == other.is_extended_id
                && self.is_error_frame == other.is_error_frame && self.error_state_indicator
                == other.error_state_indicator && bytes_equal(self.data.as_slice(), other.data.as_slice())
        }
    }
}

impl vstd::std_specs::cmp::PartialEqSpecImpl for CanMessage {
    open spec fn obeys_eq_spec() -> bool {
        false
    }

    open spec fn eq_spec(&self, other: &CanMessage) -> bool {
        same_frame(self, other)
    }
}

impl CanMessage {
    /// A data frame with identifier `id` and payload `data`, of the smallest
    /// kind that holds it; `None` past the CAN-XL limit.
    pub fn new(id: Id, data: &[u8]) -> (r: Option<CanMessage>)
        ensures
            match can_type_of(data@.len()) {
                None => r is None,
                Some(t) => r matches Some(m) && {
                    &&& m.timestamp == 0
                    &&& m.arbitration_id == id_bits(id)
                    &&& m.is_extended_id == (id is Extended)
                    &&& !m.is_remote_frame && !m.is_error_frame
                    &&& m.channel == 0
                    &&& m.length == data@.len()
                    &&& m.data@ == data@
                    &&& m.can_type == t
                    &&& m.direct == Direct::Transmit
                    &&& !m.bitrate_switch && !m.error_state_indicator
                    &&& m.tx_mode is None
                },
            },
    {
        match can_type(data.len()) {
            Ok(t) => Some(CanMessage {
                timestamp: 0,
                arbitration_id: id.as_raw(),
                is_extended_id: id.is_extended(),
                is_remote_frame: false,
                is_error_frame: false,
                channel: 0,
                length: data.len(),
                data: crate::isotp::copy_range(data, 0, data.len()),
                can_type: t,
                direct: Direct::Transmit,
                bitrate_switch: false,
                error_state_indicator: false,
                tx_mode: None,
            }),
            Err(_) => None,
        }
    }

    /// A remote frame with identifier `id` requesting `len` bytes; `None`
    /// past the CAN-XL limit.
    pub fn new_remote(id: Id, len: usize) -> (r: Option<CanMessage>)
        ensures
            match can_type_of(len as nat) {
                None => r is None,
                Some(t) => r matches Some(m) && {
                    &&& m.timestamp == 0
                    &&& m.arbitration_id == id_bits(id)
                    &&& m.is_extended_id == (id is Extended)
                    &&& m.is_remote_frame && !m.is_error_frame
                    &&& m.channel == 0
                    &&& m.length == len
                    &&& m.data@.len() == 0
                    &&& m.can_type == t
                    &&& m.direct == Direct::Transmit
                    &&& !m.bitrate_switch && !m.error_state_indicator
                    &&& m.tx_mode is None
                },
            },
    {
        match can_type(len) {
            Ok(t) => Some(CanMessage {
                timestamp: 0,
                arbitration_id: id.as_raw(),
                is_extended_id: id.is_extended(),
                is_remote_frame: true,
                is_error_frame: false,
                channel: 0,
                length: len,
                data: Vec::new(),
                can_type: t,
                direct: Direct::Transmit,
                bitrate_switch: false,
                error_state_indicator: false,
                tx_mode: None,
            }),
            Err(_) => None,
        }
    }

    pub fn timestamp(&self) -> (r: u64)
        ensures
            r == self.timestamp,
    {
        self.timestamp
    }

    /// Sets the timestamp; `None` sets 0.
    pub fn set_timestamp(&mut self, value: Option<u64>)
        ensures
            *final(self) == (CanMessage {
                timestamp: match value {
                    Some(v) => v,
                    None => 0,
                },
                ..*old(self)
            }),
    {
        self.timestamp = match value {
            Some(v) => v,
            None => 0,
        };
    }

    /// The identifier, extended as the message says or as its bits require.
    pub fn id(&self) -> (r: Id)
        ensures
            r == id_from_bits(self.arbitration_id, self.is_extended_id),
    {
        Id::from_bits(self.arbitration_id, self.is_extended_id)
    }

    pub fn can_type(&self) -> (r: CanType)
        ensures
            r == self.can_type,
    {
        self.can_type
    }

    /// Sets the frame kind, cutting the declared length to what that kind holds.
    pub fn set_can_type(&mut self, t: CanType)
        ensures
            *final(self) == (CanMessage {
                can_type: t,
                length: if old(self).length > max_len_of(t) { max_len_of(t) as usize } else { old(self).length },
                ..*old(self)
            }),
    {
        let max = match t {
            CanType::Can => MAX_FRAME_SIZE,
            CanType::CanFd => MAX_FD_FRAME_SIZE,
            CanType::CanXl => MAX_XL_FRAME_SIZE,
        };
        if self.length > max {
            self.length = max;
        }
        self.can_type = t;
    }

    /// Whether this is a CAN-FD frame.
    pub fn is_can_fd(&self) -> (r: bool)
        ensures
            r == (self.can_type == CanType::CanFd),
    {
        match self.can_type {
            CanType::CanFd => true,
            _ => false,
        }
    }

    /// Marks the frame as CAN-FD, or as classic CAN.
    pub fn set_can_fd(&mut self, value: bool)
        ensures
            *final(self) == (CanMessage {
                can_type: if value { CanType::CanFd } else { CanType::Can },
                length: if old(self).length > max_len_of(if value { CanType::CanFd } else { CanType::Can }) {
                    max_len_of(if value { CanType::CanFd } else { CanType::Can }) as usize
                } else {
                    old(self).length
                },
                ..*old(self)
            }),
    {
        if value {
            self.set_can_type(CanType::CanFd);
        } else {
            self.set_can_type(CanType::Can);
        }
    }

    pub fn is_remote(&self) -> (r: bool)
        ensures
            r == self.is_remote_frame,
    {
        self.is_remote_frame
    }

    pub fn is_extended(&self) -> (r: bool)
        ensures
            r == self.is_extended_id,
    {
        self.is_extended_id
    }

    pub fn direct(&self) -> (r: Direct)
        ensures
            r == self.direct,
    {
        self.direct
    }

    pub fn set_direct(&mut self, direct: Direct)
        ensures
            *final(self) == (CanMessage { direct: direct, ..*old(self) }),
    {
        self.direct = direct;
    }

    pub fn is_bitrate_switch(&self) -> (r: bool)
        ensures
            r == self.bitrate_switch,
    {
        self.bitrate_switch
    }

    pub fn set_bitrate_switch(&mut self, value: bool)
        ensures
            *final(self) == (CanMessage { bitrate_switch: value, ..*old(self) }),
    {
        self.bitrate_switch = value;
    }

    pub fn is_error_frame(&self) -> (r: bool)
        ensures
            r == self.is_error_frame,
    {
        self.is_error_frame
    }

    pub fn set_error_frame(&mut self, value: bool)
        ensures
            *final(self) == (CanMessage { is_error_frame: value, ..*old(self) }),
    {
        self.is_error_frame = value;
    }

    /// The error state indicator.
    pub fn is_esi(&self) -> (r: bool)
        ensures
            r == self.error_state_indicator,
    {
        self.error_state_indicator
    }

    pub fn set_esi(&mut self, value: bool)
        ensures
            *final(self) == (CanMessage { error_state_indicator: value, ..*old(self) }),
    {
        self.error_state_indicator = value;
    }

    pub fn channel(&self) -> (r: u8)
        ensures
            r == self.channel,
    {
        self.channel
    }

    pub fn set_channel(&mut self, value: u8)
        ensures
            *final(self) == (CanMessage { channel: value, ..*old(self) }),
    {
        self.channel = value;
    }

    /// The payload.
    pub fn data(&self) -> (r: &[u8])
        ensures
            r@ == self.data@,
    {
        self.data.as_slice()
    }

    /// The declared length.
    pub fn length(&self) -> (r: usize)
        ensures
            r == self.length,
    {
        self.length
    }

    /// The slot size that the declared length needs in this frame kind, or -1.
    pub fn dlc(&self) -> (r: isize)
        ensures
            r as int == dlc_of(self.length as nat, self.can_type),
    {
        can_dlc(self.length, self.can_type)
    }

    /// The transmit mode, normal where none was set.
    pub fn tx_mode(&self) -> (r: u8)
        ensures
            r == (match self.tx_mode {
                Some(m) => m,
                None => DEFAULT_TX_MODE,
            }),
    {
        match self.tx_mode {
            Some(m) => m,
            None => DEFAULT_TX_MODE,
        }
    }

    /// Sets the transmit mode; a value above 3 sets normal transmission.
    pub fn set_tx_mode(&mut self, tx_mode: u8)
        ensures
            *final(self) == (CanMessage {
                tx_mode: Some(if tx_mode > 3 { DEFAULT_TX_MODE } else { tx_mode }),
                ..*old(self)
            }),
    {
        self.tx_mode = Some(if tx_mode > 3 { DEFAULT_TX_MODE } else { tx_mode });
    }
}

} // verus!
