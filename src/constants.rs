use vstd::prelude::*;

verus! {

/// Identifier flag: the frame uses the 29-bit extended format.
pub const ID_FLAG_EXTENDED: u32 = 0x8000_0000;

/// Identifier flag: the frame is a remote transmission request.
pub const ID_FLAG_REMOTE: u32 = 0x4000_0000;

/// Identifier flag: the frame is an error frame.
pub const ID_FLAG_ERROR: u32 = 0x2000_0000;

/// Mask for standard identifiers.
pub const SFF_MASK: u32 = 0x0000_07FF;

/// Mask for extended identifiers.
pub const EFF_MASK: u32 = 0x1FFF_FFFF;

/// Mask for error identifiers.
pub const ERR_MASK: u32 = 0x1FFF_FFFF;

/// The largest payload of a classic CAN frame.
pub const MAX_FRAME_SIZE: usize = 8;

/// The largest payload of a CAN-FD frame.
pub const MAX_FD_FRAME_SIZE: usize = 64;

/// The largest payload of a CAN-XL frame.
pub const MAX_XL_FRAME_SIZE: usize = 2048;

/// The largest payload of a classic CAN frame (the MTU that ISO-TP runs on).
pub const CAN_FRAME_MAX_SIZE: usize = 8;

/// The largest payload of a CAN-FD frame.
pub const CANFD_FRAME_MAX_SIZE: usize = 64;

/// Default padding value (0b1010_1010).
pub const DEFAULT_PADDING: u8 = 0xAA;

} // verus!
