mod channel;
mod context;
mod frame;
pub mod laws;

pub use context::{
    Address, AddressType, IsoTpContext, P2Context, ReassemblyModel, P2_MAX, P2_STAR_MAX,
};
pub use frame::{
    copy_range, FlowControlContext, FlowControlState, FrameModel, Iso15765Error, IsoTpErrorModel, IsoTpFrame,
    CONSECUTIVE_FRAME_SIZE, FIRST_FRAME_SIZE_2004, FIRST_FRAME_SIZE_2016, ISO_TP_DEFAULT_BLOCK_SIZE,
    ISO_TP_DEFAULT_ST_MIN, ISO_TP_MAX_LENGTH_2004, ISO_TP_MAX_LENGTH_2016, SINGLE_FRAME_SIZE_2004,
    SINGLE_FRAME_SIZE_2016,
};
pub use channel::{
    CanIsoTp, EventModel, IsoTpEvent, IsoTpState, Reaction, Reply, WaitVerdict, STATE_ERROR, STATE_IDLE, STATE_SENDING,
    STATE_WAIT_BUSY, STATE_WAIT_FLOW_CTRL, TIMEOUT_AS_ISO15765_2, TIMEOUT_CR_ISO15765_2,
};
