use vstd::prelude::*;
use crate::constants::{DEFAULT_PADDING, MAX_FD_FRAME_SIZE, MAX_FRAME_SIZE, MAX_XL_FRAME_SIZE};
use crate::error::CanError;

verus! {

/// The kind of a CAN frame, told by how much payload it may carry.
#[derive(Debug, Clone, Copy, PartialEq, Eq, Structural)]
pub enum CanType {
    Can,
    CanFd,
    CanXl,
}

/// The payload `s` cut or padded to `n` bytes, the padding being `p`.
pub open spec fn resized(s: Seq<u8>, n: nat, p: u8) -> Seq<u8> {
    if n <= s.len() {
        s.subrange(0, n as int)
    } else {
        s + Seq::new((n - s.len()) as nat, |i: int| p)
    }
}

/// The smallest frame type whose payload holds `len` bytes.
pub open spec fn can_type_of(len: nat) -> Option<CanType> {
    if len <= MAX_FRAME_SIZE {
        Some(CanType::Can)
    } else if len <= MAX_FD_FRAME_SIZE {
        Some(CanType::CanFd)
    } else if len <= MAX_XL_FRAME_SIZE {
        Some(CanType::CanXl)
    } else {
        None
    }
}

/// The data length code slot that holds `len` bytes, as an FD controller rounds it.
pub open spec fn fd_dlc_of(len: nat) -> Option<nat> {
    if len <= 8 {
        Some(len)
    } else if len <= 12 {
        Some(12)
    } else if len <= 16 {
        Some(16)
    } else if len <= 20 {
        Some(20)
    } else if len <= 24 {
        Some(24)
    } else if len <= 32 {
        Some(32)
    } else if len <= 48 {
        Some(48)
    } else if len <= 64 {
        Some(64)
    } else {
        None
    }
}

/// The slot size for `len` bytes in a frame of kind `t` (`-1` where none holds them).
pub open spec fn dlc_of(len: nat, t: CanType) -> int {
    match t {
        CanType::Can => if len <= MAX_FRAME_SIZE { len as int } else { -1 },
        CanType::CanFd => match fd_dlc_of(len) {
            Some(d) => d as int,
            None => -1,
        },
        CanType::CanXl => -1,
    }
}

/// Resizes `data` to `size` bytes, cutting it or padding it with `value`.
pub fn resize_with(data: &mut Vec<u8>, size: usize, value: u8)
    ensures
        final(data)@ == resized(old(data)@, size as nat, value),
{
    if size <= data.len() {
        data.truncate(size);
        return;
    }
    let ghost start = data@;
    while data.len() < size
        invariant
            start.len() <= data@.len() <= size,
            data@ == start + Seq::new((data@.len() - start.len()) as nat, |i: int| value),
        decreases size - data.len(),
    {
        data.push(value);
        assert(data@ =~= start + Seq::new((data@.len() - start.len()) as nat, |i: int| value));
    }
}

/// Resizes `data` to `size` bytes, padding with the default padding byte.
pub fn data_resize(data: &mut Vec<u8>, size: usize)
    ensures
        final(data)@ == resized(old(data)@, size as nat, DEFAULT_PADDING),
{
    resize_with(data, size, DEFAULT_PADDING);
}

/// The frame kind that a payload of `len` bytes needs.
pub fn can_type(len: usize) -> (r: Result<CanType, CanError>)
    ensures
        match can_type_of(len as nat) {
            Some(t) => r == Ok::<CanType, CanError>(t),
            None => r matches Err(CanError::OtherError(m)) && m@ == "length of frame is out of range!"@,
        },
{
    if len <= MAX_FRAME_SIZE {
        Ok(CanType::Can)
    } else if len <= MAX_FD_FRAME_SIZE {
        Ok(CanType::CanFd)
    } else if len <= MAX_XL_FRAME_SIZE {
        Ok(CanType::CanXl)
    } else {
        Err(CanError::other_error("length of frame is out of range!"))
    }
}

/// Whether a payload of `len` bytes needs an FD frame; an error past the FD limit.
pub fn is_can_fd_len(len: usize) -> (r: Result<bool, CanError>)
    ensures
        len <= MAX_FRAME_SIZE ==> r == Ok::<bool, CanError>(false),
        MAX_FRAME_SIZE < len <= MAX_FD_FRAME_SIZE ==> r == Ok::<bool, CanError>(true),
        len > MAX_FD_FRAME_SIZE ==> (r matches Err(CanError::OtherError(m)) && m@
            == "length of frame is out of range!"@),
{
    if len <= MAX_FRAME_SIZE {
        Ok(false)
    } else if len <= MAX_FD_FRAME_SIZE {
        Ok(true)
    } else {
        Err(CanError::other_error("length of frame is out of range!"))
    }
}

/// The slot size that holds `length` bytes in a frame of kind `t`, or `-1`.
pub fn can_dlc(length: usize, t: CanType) -> (r: isize)
    ensures
        r as int == dlc_of(length as nat, t),
{
    match t {
        CanType::Can => if length <= MAX_FRAME_SIZE {
            length as isize
        } else {
            -1
        },
        CanType::CanFd => if length <= MAX_FRAME_SIZE {
            length as isize
        } else if length <= 12 {
            12
        } else if length <= 16 {
            16
        } else if length <= 20 {
            20
        } else if length <= 24 {
            24
        } else if length <= 32 {
            32
        } else if length <= 48 {
            48
        } else if length <= MAX_FD_FRAME_SIZE {
            64
        } else {
            -1
        },
        CanType::CanXl => -1,
    }
}

/// Relies on `std::time::SystemTime::now` and `duration_since(UNIX_EPOCH)`: the
/// host clock in milliseconds since the epoch, or 0 where the clock stands
/// before the epoch. Nothing is promised of the value.
#[verifier::external_body]
pub fn system_timestamp() -> u64 {
    match std::time::SystemTime::now().duration_since(std::time::UNIX_EPOCH) {
        Ok(v) => v.as_millis() as u64,
        Err(_) => 0,
    }
}

} // verus!
