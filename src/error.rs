use vstd::prelude::*;

verus! {

/// The errors of the CAN layer.
#[derive(Debug, Clone, PartialEq, Eq)]
pub enum CanError {
    /// A device could not be configured.
    DeviceConfigFailed,
    /// A device could not be opened.
    DeviceOpenFailed,
    /// The device family does not support the request.
    DeviceNotSupported,
    /// A channel could not be initialised.
    ChannelInitializeError(String),
    /// A channel was used before it was opened.
    ChannelNotOpened(String),
    /// A frame could not be converted between two layouts.
    FrameConvertFailed(String),
    /// Library loading, device opening or channel opening failed.
    InitializeError(String),
    /// The operation is not implemented by this driver.
    NotImplementedError,
    /// The operation is not available on this device family.
    NotSupportedError,
    /// A bounded wait ran out.
    TimeoutError(String),
    /// A runtime transmit, receive or state error.
    OperationError(String),
    /// Any other error.
    OtherError(String),
}

/// `a` followed by `b` followed by `c`.
pub open spec fn join3(a: Seq<char>, b: Seq<char>, c: Seq<char>) -> Seq<char> {
    a + b + c
}

impl CanError {
    /// The builder names an interface that the driver does not serve.
    pub fn interface_not_matched(i: &str) -> (r: CanError)
        ensures
            r matches CanError::InitializeError(m) && m@ == join3("interface "@, i@, " is not matched"@),
    {
        let mut m = String::from_str("interface ");
        m.append(i);
        m.append(" is not matched");
        CanError::InitializeError(m)
    }

    /// A device failed to open, for the reason `msg`.
    pub fn device_open_error(msg: &str) -> (r: CanError)
        ensures
            r matches CanError::OperationError(m) && m@ == msg@ + " when device opened"@,
    {
        let mut m = String::from_str(msg);
        m.append(" when device opened");
        CanError::OperationError(m)
    }

    /// The device is used before it was opened.
    pub fn device_not_opened() -> (r: CanError)
        ensures
            r matches CanError::OperationError(m) && m@ == "device is not opened"@,
    {
        CanError::operation_error("device is not opened")
    }

    /// `channel` is used before it was opened.
    pub fn channel_not_opened(channel: &str) -> (r: CanError)
        ensures
            r matches CanError::OperationError(m) && m@ == join3("channel: "@, channel@, " is not opened"@),
    {
        let mut m = String::from_str("channel: ");
        m.append(channel);
        m.append(" is not opened");
        CanError::OperationError(m)
    }

    /// A wait on `channel` ran out.
    pub fn channel_timeout(channel: &str) -> (r: CanError)
        ensures
            r matches CanError::TimeoutError(m) && m@ == "at channel: "@ + channel@,
    {
        let mut m = String::from_str("at channel: ");
        m.append(channel);
        CanError::TimeoutError(m)
    }

    /// An operation error carrying `msg`.
    pub fn operation_error(msg: &str) -> (r: CanError)
        ensures
            r matches CanError::OperationError(m) && m@ == msg@,
    {
        CanError::OperationError(String::from_str(msg))
    }

    /// Any other error, carrying `msg`.
    pub fn other_error(msg: &str) -> (r: CanError)
        ensures
            r matches CanError::OtherError(m) && m@ == msg@,
    {
        CanError::OtherError(String::from_str(msg))
    }
}

} // verus!
