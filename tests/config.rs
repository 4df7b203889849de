use rs_can::{CanError, ChannelConfig, ConfigValue, DeviceBuilder};

#[test]
fn channel_config_extras() {
    let mut cfg = ChannelConfig::new(500_000);
    assert_eq!(cfg.bitrate(), 500_000);
    assert_eq!(cfg.dbitrate(), None);
    cfg.set_data_bitrate(2_000_000);
    cfg.set_resistance(true);
    assert_eq!(cfg.dbitrate(), Some(2_000_000));
    assert_eq!(cfg.resistance(), Some(true));
    cfg.add_other("filter", ConfigValue::U8(1));
    cfg.add_other("acc_code", ConfigValue::U32(0x100));
    cfg.add_other("filter", ConfigValue::U8(0));
    assert_eq!(cfg.get_other("filter"), Some(ConfigValue::U8(0)));
    assert_eq!(cfg.get_other_u8("filter").unwrap(), Some(0));
    assert_eq!(cfg.get_other_u32("acc_code").unwrap(), Some(0x100));
    assert_eq!(cfg.get_other_u32("missing").unwrap(), None);
    assert!(cfg.get_other_u8("acc_code").is_err());
}

#[test]
fn device_builder() {
    let mut b = DeviceBuilder::new("zlgcan");
    b.set_channel("0");
    b.add_config("0", ChannelConfig::new(500_000));
    b.add_config("1", ChannelConfig::new(250_000));
    b.add_other("device_index", ConfigValue::U32(0));
    b.add_other("derive", ConfigValue::Bool(true));
    assert_eq!(b.interface(), "zlgcan");
    assert_eq!(b.channel_config("1").unwrap().bitrate(), 250_000);
    assert!(b.channel_config("2").is_none());
    assert_eq!(b.channel_names(), vec!["1".to_string(), "0".to_string()]);
    assert_eq!(b.get_other_u32("device_index").unwrap(), Some(0));
    assert_eq!(b.get_other_bool("derive").unwrap(), Some(true));
    assert!(b.get_other_bool("device_index").is_err());
    assert!(b.check_interface("zlgcan").is_ok());
    assert_eq!(
        b.check_interface("socketcan"),
        Err(CanError::InitializeError("interface zlgcan is not matched".to_string()))
    );
}

#[test]
fn error_messages() {
    assert_eq!(CanError::channel_not_opened("can0"), CanError::OperationError("channel: can0 is not opened".into()));
    assert_eq!(CanError::channel_timeout("can0"), CanError::TimeoutError("at channel: can0".into()));
    assert_eq!(CanError::device_not_opened(), CanError::OperationError("device is not opened".into()));
    assert_eq!(CanError::device_open_error("busy"), CanError::OperationError("busy when device opened".into()));
    assert_eq!(CanError::other_error("x"), CanError::OtherError("x".into()));
    assert_eq!(CanError::interface_not_matched("a"), CanError::InitializeError("interface a is not matched".into()));
}
