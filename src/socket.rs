use vstd::prelude::*;
use crate::constants::{EFF_MASK, ID_FLAG_ERROR, ID_FLAG_EXTENDED, ID_FLAG_REMOTE, MAX_FD_FRAME_SIZE, MAX_FRAME_SIZE};
use crate::error::CanError;
use crate::frame::{same_frame, CanMessage, Direct};
use crate::utils::{resized, CanType};

verus! {

/// Bytes of a classic frame on a raw CAN socket.
pub const FRAME_SIZE: usize = 16;

/// Bytes of an FD frame on a raw CAN socket.
pub const FD_FRAME_SIZE: usize = 72;

/// Bytes of an XL frame on a raw CAN socket.
pub const XL_FRAME_SIZE: usize = 2060;

/// FD flag: bit rate switch.
pub const CANFD_BRS: u8 = 0x01;

/// FD flag: error state indicator.
pub const CANFD_ESI: u8 = 0x02;

/// A classic frame as the kernel socket carries it: the identifier with
/// its flag bits, the length, and an 8-byte payload slot.
#[derive(Debug, Clone)]
pub struct RawCanFrame {
    pub can_id: u32,
    pub can_dlc: u8,
    pub data: Vec<u8>,
}

/// An FD frame as the kernel socket carries it, with a 64-byte payload slot.
#[derive(Debug, Clone)]
pub struct RawCanFdFrame {
    pub can_id: u32,
    pub len: u8,
    pub flags: u8,
    pub data: Vec<u8>,
}

/// A frame read from or written to a kernel socket, by kind.
#[derive(Debug, Clone)]
pub enum CanAnyFrame {
    Normal(RawCanFrame),
    Remote(RawCanFrame),
    Error(RawCanFrame),
    Fd(RawCanFdFrame),
}

/// A raw classic frame whose length fits its slot.
pub open spec fn raw_ok(f: &RawCanFrame) -> bool {
    f.data@.len() == MAX_FRAME_SIZE && f.can_dlc <= MAX_FRAME_SIZE
}

/// A raw FD frame whose length fits its slot.
pub open spec fn raw_fd_ok(f: &RawCanFdFrame) -> bool {
    f.data@.len() == MAX_FD_FRAME_SIZE && f.len <= MAX_FD_FRAME_SIZE
}

/// The frame's raw parts fit their slots.
pub open spec fn any_ok(f: &CanAnyFrame) -> bool {
    match f {
        CanAnyFrame::Normal(x) => raw_ok(x),
        CanAnyFrame::Remote(x) => raw_ok(x),
        CanAnyFrame::Error(x) => raw_ok(x),
        CanAnyFrame::Fd(x) => raw_fd_ok(x),
    }
}

/// `msg`'s raw identifier with the flags a classic socket frame carries.
pub open spec fn classic_id(msg: &CanMessage) -> u32 {
    let base = msg.arbitration_id | (if msg.is_extended_id { ID_FLAG_EXTENDED } else { 0 });
    if msg.is_error_frame {
        base | ID_FLAG_ERROR
    } else if msg.is_remote_frame {
        base | ID_FLAG_REMOTE
    } else {
        base
    }
}

/// `msg`'s raw identifier with the flags an FD socket frame carries.
pub open spec fn fd_id(msg: &CanMessage) -> u32 {
    msg.arbitration_id | (if msg.is_extended_id { ID_FLAG_EXTENDED } else { 0 }) | (if msg.is_remote_frame {
        ID_FLAG_REMOTE
    } else {
        0
    })
}

/// What `CanAnyFrame::from_message` gives for `msg`.
pub open spec fn socket_encoded(r: &CanAnyFrame, msg: &CanMessage) -> bool {
    &&& any_ok(r)
    &&& match *r {
        CanAnyFrame::Fd(f) => {
            &&& msg.can_type == CanType::CanFd
            &&& f.can_id == fd_id(msg)
            &&& f.len == msg.data@.len()
            &&& f.data@ == resized(msg.data@, MAX_FD_FRAME_SIZE as nat, 0)
            &&& f.flags == ((if msg.bitrate_switch { CANFD_BRS } else { 0u8 }) | (if msg.error_state_indicator {
                CANFD_ESI
            } else {
                0u8
            }))
        },
        CanAnyFrame::Error(f) => msg.can_type != CanType::CanFd && msg.is_error_frame && f.can_id == classic_id(msg)
            && f.can_dlc == msg.data@.len() && f.data@ == resized(msg.data@, MAX_FRAME_SIZE as nat, 0),
        CanAnyFrame::Remote(f) => msg.can_type != CanType::CanFd && !msg.is_error_frame && msg.is_remote_frame
            && f.can_id == classic_id(msg) && f.can_dlc == msg.data@.len() && f.data@ == resized(
            msg.data@,
            MAX_FRAME_SIZE as nat,
            0,
        ),
        CanAnyFrame::Normal(f) => msg.can_type != CanType::CanFd && !msg.is_error_frame && !msg.is_remote_frame
            && f.can_id == classic_id(msg) && f.can_dlc == msg.data@.len() && f.data@ == resized(
            msg.data@,
            MAX_FRAME_SIZE as nat,
            0,
        ),
    }
}

/// What `CanMessage::from_any` gives for `frame` read on `channel` at `timestamp`.
pub open spec fn socket_decoded(r: &CanMessage, frame: &CanAnyFrame, channel: u8, timestamp: u64) -> bool {
    &&& r.timestamp == timestamp
    &&& r.channel == channel
    &&& r.direct == Direct::Receive
    &&& r.tx_mode is None
    &&& match *frame {
        CanAnyFrame::Fd(f) => {
            &&& r.arbitration_id == f.can_id & EFF_MASK
            &&& r.is_extended_id == (f.can_id & ID_FLAG_EXTENDED != 0)
            &&& !r.is_remote_frame && !r.is_error_frame
            &&& r.length == f.len as usize
            &&& r.data@ == f.data@.subrange(0, f.len as int)
            &&& r.can_type == CanType::CanFd
            &&& r.bitrate_switch == (f.flags & CANFD_BRS != 0)
            &&& r.error_state_indicator == (f.flags & CANFD_ESI != 0)
        },
        CanAnyFrame::Normal(f) | CanAnyFrame::Remote(f) | CanAnyFrame::Error(f) => {
            &&& r.arbitration_id == f.can_id & EFF_MASK
            &&& r.is_extended_id == (f.can_id & ID_FLAG_EXTENDED != 0)
            &&& r.is_remote_frame == (*frame is Remote)
            &&& r.is_error_frame == (*frame is Error)
            &&& r.length == f.can_dlc as usize
            &&& r.data@ == f.data@.subrange(0, f.can_dlc as int)
            &&& r.can_type == CanType::Can
            &&& !r.bitrate_switch && !r.error_state_indicator
        },
    }
}

/// The first `n` bytes of `data` in a zeroed slot of `slot` bytes.
fn fill_slot(data: &[u8], slot: usize) -> (r: Vec<u8>)
    requires
        data@.len() <= slot,
    ensures
        r@ == resized(data@, slot as nat, 0),
{
    let mut r = crate::isotp::copy_range(data, 0, data.len());
    let ghost start = data@;
    assert(r@ =~= start);
    while r.len() < slot
        invariant
            start.len() <= r@.len() <= slot,
            r@ == start + Seq::new((r@.len() - start.len()) as nat, |i: int| 0u8),
        decreases slot - r.len(),
    {
        r.push(0);
        assert(r@ =~= start + Seq::new((r@.len() - start.len()) as nat, |i: int| 0u8));
    }
    r
}

impl CanAnyFrame {
    /// The bytes the frame takes on the socket.
    pub fn size(&self) -> (r: usize)
        ensures
            r == (match *self {
                CanAnyFrame::Fd(_) => FD_FRAME_SIZE,
                _ => FRAME_SIZE,
            }),
    {
        match self {
            CanAnyFrame::Normal(_) => FRAME_SIZE,
            CanAnyFrame::Remote(_) => FRAME_SIZE,
            CanAnyFrame::Error(_) => FRAME_SIZE,
            CanAnyFrame::Fd(_) => FD_FRAME_SIZE,
        }
    }

    /// Sorts a classic frame by its flags: remote, else error, else normal.
    pub fn from_can_frame(frame: RawCanFrame) -> (r: CanAnyFrame)
        ensures
            frame.can_id & ID_FLAG_REMOTE != 0 ==> r == CanAnyFrame::Remote(frame),
            frame.can_id & ID_FLAG_REMOTE == 0 && frame.can_id & ID_FLAG_ERROR != 0 ==> r == CanAnyFrame::Error(
                frame,
            ),
            frame.can_id & ID_FLAG_REMOTE == 0 && frame.can_id & ID_FLAG_ERROR == 0 ==> r == CanAnyFrame::Normal(
                frame,
            ),
    {
        let can_id = frame.can_id;
        if can_id & ID_FLAG_REMOTE != 0 {
            CanAnyFrame::Remote(frame)
        } else if can_id & ID_FLAG_ERROR != 0 {
            CanAnyFrame::Error(frame)
        } else {
            CanAnyFrame::Normal(frame)
        }
    }

    /// The socket frame for `msg`: an FD frame for an FD message, else a
    /// classic frame sorted as error, remote or normal.
    pub fn from_message(msg: CanMessage) -> (r: CanAnyFrame)
        requires
            msg.can_type == CanType::CanFd ==> msg.data@.len() <= MAX_FD_FRAME_SIZE,
            msg.can_type != CanType::CanFd ==> msg.data@.len() <= MAX_FRAME_SIZE,
        ensures
            socket_encoded(&r, &msg),
    {
        if let CanType::CanFd = msg.can_type {
            let can_id = msg.arbitration_id | (if msg.is_extended_id { ID_FLAG_EXTENDED } else { 0 }) | (
            if msg.is_remote_frame {
                ID_FLAG_REMOTE
            } else {
                0
            });
            let flags = (if msg.bitrate_switch { CANFD_BRS } else { 0 }) | (if msg.error_state_indicator {
                CANFD_ESI
            } else {
                0
            });
            let data = fill_slot(msg.data.as_slice(), MAX_FD_FRAME_SIZE);
            CanAnyFrame::Fd(RawCanFdFrame { can_id, len: msg.data.len() as u8, flags, data })
        } else {
            let data = fill_slot(msg.data.as_slice(), MAX_FRAME_SIZE);
            let can_dlc = msg.data.len() as u8;
            let can_id = msg.arbitration_id | (if msg.is_extended_id { ID_FLAG_EXTENDED } else { 0 });
            if msg.is_error_frame {
                return CanAnyFrame::Error(RawCanFrame { can_id: can_id | ID_FLAG_ERROR, can_dlc, data });
            }
            if msg.is_remote_frame {
                return CanAnyFrame::Remote(RawCanFrame { can_id: can_id | ID_FLAG_REMOTE, can_dlc, data });
            }
            CanAnyFrame::Normal(RawCanFrame { can_id, can_dlc, data })
        }
    }
}

impl CanMessage {
    /// The received message for a frame read from a socket on `channel` at `timestamp`: the
    /// identifier loses its flag bits, the payload is cut to the length, and
    /// the kind of frame sets the remote, error and FD flags.
    pub fn from_any(frame: CanAnyFrame, channel: u8, timestamp: u64) -> (r: CanMessage)
        requires
            any_ok(&frame),
        ensures
            socket_decoded(&r, &frame, channel, timestamp),
    {
        let (f, remote, error) = match frame {
            CanAnyFrame::Fd(f) => {
                let len = f.len as usize;
                return CanMessage {
                    timestamp,
                    arbitration_id: f.can_id & EFF_MASK,
                    is_extended_id: f.can_id & ID_FLAG_EXTENDED != 0,
                    is_remote_frame: false,
                    is_error_frame: false,
                    channel,
                    length: len,
                    data: crate::isotp::copy_range(f.data.as_slice(), 0, len),
                    can_type: CanType::CanFd,
                    direct: Direct::Receive,
                    bitrate_switch: f.flags & CANFD_BRS != 0,
                    error_state_indicator: f.flags & CANFD_ESI != 0,
                    tx_mode: None,
                };
            },
            CanAnyFrame::Normal(f) => (f, false, false),
            CanAnyFrame::Remote(f) => (f, true, false),
            CanAnyFrame::Error(f) => (f, false, true),
        };
        let len = f.can_dlc as usize;
        CanMessage {
            timestamp,
            arbitration_id: f.can_id & EFF_MASK,
            is_extended_id: f.can_id & ID_FLAG_EXTENDED != 0,
            is_remote_frame: remote,
            is_error_frame: error,
            channel,
            length: len,
            data: crate::isotp::copy_range(f.data.as_slice(), 0, len),
            can_type: CanType::Can,
            direct: Direct::Receive,
            bitrate_switch: false,
            error_state_indicator: false,
            tx_mode: None,
        }
    }
}

/// What a read that saw `ready` frames ready within its timeout gives: a
/// timeout where none was, so an idle channel reports a timeout and not an
/// operation error.
pub fn poll_result(channel: &str, ready: usize) -> (r: Result<(), CanError>)
    ensures
        ready == 0 ==> (r matches Err(CanError::TimeoutError(m)) && m@ == "at channel: "@ + channel@),
        ready > 0 ==> r is Ok,
{
    if ready == 0 {
        Err(CanError::channel_timeout(channel))
    } else {
        Ok(())
    }
}

/// The result of a receive call that collected `frames` on `channel`:
/// a timeout where the batch is empty, else the batch in order.
pub fn batch_result(channel: &str, frames: Vec<CanMessage>) -> (r: Result<Vec<CanMessage>, CanError>)
    ensures
        frames@.len() == 0 ==> (r matches Err(CanError::TimeoutError(m)) && m@ == "at channel: "@ + channel@),
        frames@.len() > 0 ==> (r matches Ok(v) && v@ == frames@),
{
    if frames.len() == 0 {
        Err(CanError::channel_timeout(channel))
    } else {
        Ok(frames)
    }
}

/// The errno of an operation that is still in progress on Linux.
pub const EINPROGRESS: i32 = 115;

/// How a write to a socket ended.
#[derive(Debug, Clone, Copy, PartialEq, Eq, Structural)]
pub enum IoOutcome {
    /// The frame was written.
    Written,
    /// The socket would block.
    WouldBlock,
    /// Another kind of error, with its errno where there is one.
    Other(Option<i32>),
    /// A hard failure.
    Failed,
}

/// Whether a write that ended with `outcome` may be tried again: it would
/// have blocked, or the platform reports the write still in progress.
pub open spec fn retryable(outcome: IoOutcome) -> bool {
    match outcome {
        IoOutcome::WouldBlock => true,
        IoOutcome::Other(Some(e)) => e == EINPROGRESS,
        _ => false,
    }
}

impl IoOutcome {
    /// Whether the write may be tried again.
    pub fn should_retry(&self) -> (r: bool)
        ensures
            r == retryable(*self),
    {
        match self {
            IoOutcome::WouldBlock => true,
            IoOutcome::Other(Some(e)) => *e == EINPROGRESS,
            _ => false,
        }
    }
}

/// What a write with a deadline does after an attempt.
#[derive(Debug, Clone, PartialEq, Eq)]
pub enum WriteVerdict {
    /// The frame is out.
    Done,
    /// Try again.
    Retry,
    /// Give up with this error.
    Fail(CanError),
}

/// The verdict on a write attempt that ended with `outcome` after
/// `elapsed_ms` of a `timeout_ms` deadline: a transient failure is retried
/// until the deadline and then reported as a timeout; any other failure is
/// an operation error at once.
pub fn write_verdict(outcome: IoOutcome, elapsed_ms: u64, timeout_ms: u64) -> (r: WriteVerdict)
    ensures
        outcome == IoOutcome::Written ==> r == WriteVerdict::Done,
        outcome != IoOutcome::Written && !retryable(outcome) ==> r matches WriteVerdict::Fail(
            CanError::OperationError(_),
        ),
        retryable(outcome) && elapsed_ms < timeout_ms ==> r == WriteVerdict::Retry,
        retryable(outcome) && elapsed_ms >= timeout_ms ==> (r matches WriteVerdict::Fail(CanError::TimeoutError(m))
            && m@ == "write frame timeout"@),
{
    match outcome {
        IoOutcome::Written => WriteVerdict::Done,
        _ => {
            if !outcome.should_retry() {
                WriteVerdict::Fail(CanError::operation_error("write frame failed"))
            } else if elapsed_ms < timeout_ms {
                WriteVerdict::Retry
            } else {
                WriteVerdict::Fail(CanError::TimeoutError(String::from_str("write frame timeout")))
            }
        },
    }
}

/// A classic data frame made from an identifier and up to 8 bytes comes back
/// from a socket frame as the same frame, whatever the channel and timestamp of the read.
pub proof fn lemma_socket_round_trip(m: CanMessage, f: CanAnyFrame, back: CanMessage, channel: u8, timestamp: u64)
    requires
        m.arbitration_id <= EFF_MASK,
        m.can_type == CanType::Can,
        !m.is_remote_frame && !m.is_error_frame && !m.error_state_indicator,
        m.length == m.data@.len(),
        m.data@.len() <= MAX_FRAME_SIZE,
        socket_encoded(&f, &m),
        socket_decoded(&back, &f, channel, timestamp),
    ensures
        same_frame(&back, &m),
{
    let a = m.arbitration_id;
    assert(a <= 0x1FFF_FFFFu32 ==> ((a | 0x8000_0000u32) & 0x1FFF_FFFFu32 == a && (a | 0x8000_0000u32)
        & 0x8000_0000u32 != 0)) by (bit_vector);
    assert(a <= 0x1FFF_FFFFu32 ==> ((a | 0u32) & 0x1FFF_FFFFu32 == a && (a | 0u32) & 0x8000_0000u32 == 0))
        by (bit_vector);
    assert(resized(m.data@, MAX_FRAME_SIZE as nat, 0).subrange(0, m.data@.len() as int) =~= m.data@);
}

/// The layout of a frame read from a socket.
#[derive(Debug, Clone, Copy, PartialEq, Eq, Structural)]
pub enum ReadKind {
    Classic,
    Fd,
}

/// The layout of a frame by the number of bytes a socket read returned:
/// a classic or an FD frame; an XL frame is not supported, and any other
/// count is a failed read.
pub fn read_kind(read_len: usize) -> (r: Result<ReadKind, CanError>)
    ensures
        read_len == FRAME_SIZE ==> r == Ok::<ReadKind, CanError>(ReadKind::Classic),
        read_len == FD_FRAME_SIZE ==> r == Ok::<ReadKind, CanError>(ReadKind::Fd),
        read_len == XL_FRAME_SIZE ==> r == Err::<ReadKind, CanError>(CanError::NotSupportedError),
        read_len != FRAME_SIZE && read_len != FD_FRAME_SIZE && read_len != XL_FRAME_SIZE ==> (r matches Err(
            CanError::OperationError(m),
        ) && m@ == "read frame failed"@),
{
    if read_len == FRAME_SIZE {
        Ok(ReadKind::Classic)
    } else if read_len == FD_FRAME_SIZE {
        Ok(ReadKind::Fd)
    } else if read_len == XL_FRAME_SIZE {
        Err(CanError::NotSupportedError)
    } else {
        Err(CanError::operation_error("read frame failed"))
    }
}

} // verus!
