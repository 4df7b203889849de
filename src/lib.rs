//! A CAN access layer: identifiers and frames, a vendor wire codec, channel
//! configuration, and an ISO 15765-2 (ISO-TP) segmentation engine.
pub mod bitrate;
mod constants;
mod device;
mod error;
mod frame;
mod identifier;
pub mod socket;
pub mod isotp;
mod utils;
pub mod zlg;

pub use constants::{
    CANFD_FRAME_MAX_SIZE, CAN_FRAME_MAX_SIZE, DEFAULT_PADDING, EFF_MASK, ERR_MASK, ID_FLAG_ERROR,
    ID_FLAG_EXTENDED, ID_FLAG_REMOTE, MAX_FD_FRAME_SIZE, MAX_FRAME_SIZE, MAX_XL_FRAME_SIZE, SFF_MASK,
};
pub use error::{CanError, CanError as Error};
pub use identifier::{CanFilter, CanFilter as Filter, Id};
pub use utils::{can_dlc, can_type, data_resize, is_can_fd_len, system_timestamp, CanType, CanType as Type};
pub use frame::{same_frame, CanMessage, Direct, DEFAULT_TX_MODE};
pub use device::{ChannelConfig, ConfigValue, DeviceBuilder, Listener};
