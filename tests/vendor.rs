use rs_can::bitrate::{
    get_fd_cfg, get_fd_set, BitrateCfg, CanChlCfgContext, ZCanChlCfg, ZCanChlCfgInner, ZCanChlMode, ZCanChlType,
    ZCanFdChlCfgInner, ZCanFdChlCfgSet, ZCanFdStd, ZCanFilterType, TimingEntry, ACC_CODE, BRP, CHANNEL_MODE,
    FILTER_TYPE,
};
use rs_can::socket::{write_verdict, IoOutcome, WriteVerdict, EINPROGRESS};
use rs_can::socket::{read_kind, ReadKind, XL_FRAME_SIZE};
use rs_can::socket::{batch_result, poll_result, CanAnyFrame, RawCanFdFrame, RawCanFrame, FD_FRAME_SIZE, FRAME_SIZE};
use rs_can::zlg::{
    device_time_offset, fix_system_time, Reference, ZCanFrameVCI, ZLinCheckSumMode, ZLinDataType, ZLinEventType,
    ZLinMode,
};
use rs_can::{CanError, CanMessage, CanType, ChannelConfig, ConfigValue, Id};

fn fd_entry(t1: u32) -> TimingEntry {
    TimingEntry {
        timing0: None,
        timing1: None,
        tseg1: Some(t1),
        tseg2: Some(2),
        sjw: Some(3),
        smp: Some(4),
        brp: Some(5),
    }
}

fn table() -> BitrateCfg {
    BitrateCfg {
        bitrate: vec![
            (500_000, TimingEntry { timing0: Some(0x00), timing1: Some(0x1C), ..fd_entry(10) }),
            (250_000, TimingEntry { timing0: Some(0x01), timing1: None, ..fd_entry(11) }),
        ],
        clock: Some(60_000_000),
        data_bitrate: Some(vec![(2_000_000, fd_entry(20))]),
    }
}

#[test]
fn fd_sets_follow_table() {
    let t = table();
    let (a, d) = get_fd_set(500_000, Some(2_000_000), &t).unwrap();
    assert_eq!(a, ZCanFdChlCfgSet::new(10, 2, 3, 4, 5));
    assert_eq!(d, ZCanFdChlCfgSet::new(20, 2, 3, 4, 5));
    let (a, d) = get_fd_set(500_000, None, &t).unwrap();
    assert_eq!(a, d);
    assert!(get_fd_set(125_000, None, &t).is_err());
    assert!(get_fd_set(500_000, Some(5_000_000), &t).is_err());
    assert_eq!(ZCanFdChlCfgSet::new(1, 2, 3, 4, 5).get_timing(), (5 << 22) | (3 << 15) | (2 << 8) | 1);
}

#[test]
fn fd_cfg_mode_bits() {
    let t = table();
    let c = get_fd_cfg(2, 1, 500_000, None, &t).unwrap();
    assert_eq!(c.mode, 3);
    assert_eq!(c.clk, 60_000_000);
    assert!(get_fd_cfg(3, 0, 500_000, None, &t).is_err());
    let no_clock = BitrateCfg { clock: None, ..table() };
    assert!(get_fd_cfg(0, 0, 500_000, None, &no_clock).is_err());
}

#[test]
fn classic_cfg_from_table() {
    let t = table();
    let mut cfg = ChannelConfig::new(500_000);
    cfg.add_other(ACC_CODE, ConfigValue::U32(0x123));
    let c = ZCanChlCfgInner::try_from_with(&t, &cfg).unwrap();
    assert_eq!(c.timing0, 0x00);
    assert_eq!(c.timing1, 0x1C);
    assert_eq!(c.acc_code, 0x123);
    assert_eq!(c.acc_mask, 0xFFFF_FFFF);
    assert!(ZCanChlCfgInner::try_from_with(&t, &ChannelConfig::new(250_000)).is_err());
    assert!(ZCanChlCfgInner::try_from_with(&t, &ChannelConfig::new(1)).is_err());
    cfg.add_other(CHANNEL_MODE, ConfigValue::U8(2));
    assert!(ZCanChlCfgInner::try_from_with(&t, &cfg).is_err());
    assert!(ZCanChlCfgInner::new(0, 1, 2, 2, None, None).is_err());
}

#[test]
fn channel_cfg_by_device_kind() {
    let t = table();
    let mut cfg = ChannelConfig::new(500_000);
    cfg.add_other(BRP, ConfigValue::U32(7));
    cfg.add_other(FILTER_TYPE, ConfigValue::U8(1));
    match ZCanChlCfg::new(true, ZCanChlType::CANFD_ISO, &t, &cfg).unwrap() {
        ZCanChlCfg::CanFd { can_type, cfg } => {
            assert_eq!(can_type, 1);
            assert_eq!(cfg, ZCanFdChlCfgInner::new(0, 0, 0, 1, None, None, Some(7)).unwrap());
        }
        _ => panic!("expected an FD configuration"),
    }
    assert!(matches!(ZCanChlCfg::new(false, ZCanChlType::CANFD_ISO, &t, &cfg).unwrap(), ZCanChlCfg::Can(_)));
}

#[test]
fn family_lookup() {
    let ctx = CanChlCfgContext { families: vec![("USBCANFD".to_string(), table())] };
    assert_eq!(ctx.get("USBCANFD").unwrap().clock, Some(60_000_000));
    assert!(ctx.get("USBCAN").is_err());
}

#[test]
fn vendor_enum_codes() {
    assert_eq!(ZCanChlType::try_from(2).unwrap(), ZCanChlType::CANFD_NON_ISO);
    assert!(ZCanChlType::try_from(3).is_err());
    assert_eq!(ZCanChlMode::try_from(1).unwrap(), ZCanChlMode::ListenOnly);
    assert_eq!(ZCanFilterType::try_from(1).unwrap().code(), 1);
    assert_eq!(ZCanFilterType::default(), ZCanFilterType::Double);
    assert_eq!(ZCanFdStd::try_from(1).unwrap(), ZCanFdStd::CANFD_NON_ISO);
    assert_eq!(Reference::Timeout.code(), 0x44);
    assert_eq!(ZLinMode::try_from(1).unwrap(), ZLinMode::Master);
    assert_eq!(ZLinDataType::try_from(2).unwrap(), ZLinDataType::TypeEvent);
    assert_eq!(ZLinEventType::try_from(0).unwrap(), ZLinEventType::Wakeup);
    assert_eq!(ZLinCheckSumMode::try_from(2).unwrap(), ZLinCheckSumMode::Auto);
    assert!(ZLinCheckSumMode::try_from(3).is_err());
}

#[test]
fn usbcan_frame_round_trip() {
    let mut m = CanMessage::new(Id::from_bits(0x18DA_F110, false), &[9, 8, 7]).unwrap();
    m.set_timestamp(Some(1234));
    m.set_channel(1);
    let f = ZCanFrameVCI::from_message(m.clone());
    assert_eq!(f.ext_flag, 1);
    assert_eq!(f.data, vec![9, 8, 7, 0, 0, 0, 0, 0]);
    assert_eq!(f.timestamp, 1234);
    let back = f.into_message();
    assert!(back == m);
    assert_eq!(back.channel(), 1);
}

#[test]
fn time_helpers() {
    assert_eq!(fix_system_time(100, 23), 123);
    assert_eq!(device_time_offset(1000, 400), 600);
    assert_eq!(device_time_offset(400, 1000), 0);
}

#[test]
fn socket_frames() {
    let raw = RawCanFrame { can_id: 0x4000_0123, can_dlc: 2, data: vec![1, 2, 0, 0, 0, 0, 0, 0] };
    let any = CanAnyFrame::from_can_frame(raw);
    assert!(matches!(any, CanAnyFrame::Remote(_)));
    assert_eq!(any.size(), FRAME_SIZE);
    let m = CanMessage::from_any(any, 3, 55);
    assert_eq!(m.direct(), rs_can::Direct::Receive);
    assert_eq!(m.channel(), 3);
    assert!(m.is_remote());
    assert_eq!(m.arbitration_id, 0x123);
    assert_eq!(m.data(), &[1, 2]);
    assert_eq!(m.timestamp(), 55);

    let mut fd = CanMessage::new(Id::from_bits(0x123, true), &[5u8; 12]).unwrap();
    fd.set_bitrate_switch(true);
    let any = CanAnyFrame::from_message(fd.clone());
    assert_eq!(any.size(), FD_FRAME_SIZE);
    match &any {
        CanAnyFrame::Fd(f) => {
            assert_eq!(f.can_id, 0x8000_0123);
            assert_eq!(f.flags, 1);
            assert_eq!(f.len, 12);
        }
        _ => panic!("expected an FD frame"),
    }
    let back = CanMessage::from_any(any, 0, 0);
    assert!(back == fd);
    assert_eq!(back.can_type(), CanType::CanFd);

    let mut err = CanMessage::new(Id::new_standard(0x10), &[1]).unwrap();
    err.set_error_frame(true);
    match CanAnyFrame::from_message(err) {
        CanAnyFrame::Error(f) => assert_eq!(f.can_id, 0x2000_0010),
        _ => panic!("expected an error frame"),
    }
    let fdraw = RawCanFdFrame { can_id: 0x7FF, len: 1, flags: 2, data: vec![0u8; 64] };
    assert!(CanMessage::from_any(CanAnyFrame::Fd(fdraw), 0, 0).is_esi());
}

#[test]
fn idle_receive_is_timeout() {
    assert_eq!(poll_result("vcan0", 0), Err(CanError::TimeoutError("at channel: vcan0".to_string())));
    assert_eq!(poll_result("vcan0", 1), Ok(()));
    assert_eq!(batch_result("0", Vec::new()), Err(CanError::TimeoutError("at channel: 0".to_string())));
    let one = vec![CanMessage::new(Id::new_standard(1), &[1]).unwrap()];
    assert_eq!(batch_result("0", one.clone()).unwrap().len(), 1);
}

#[test]
fn socket_write_verdicts() {
    assert!(IoOutcome::WouldBlock.should_retry());
    assert!(IoOutcome::Other(Some(EINPROGRESS)).should_retry());
    assert!(!IoOutcome::Other(Some(5)).should_retry());
    assert!(!IoOutcome::Other(None).should_retry());
    assert_eq!(write_verdict(IoOutcome::Written, 10, 5), WriteVerdict::Done);
    assert_eq!(write_verdict(IoOutcome::WouldBlock, 1, 5), WriteVerdict::Retry);
    assert_eq!(
        write_verdict(IoOutcome::WouldBlock, 5, 5),
        WriteVerdict::Fail(CanError::TimeoutError("write frame timeout".to_string()))
    );
    assert!(matches!(write_verdict(IoOutcome::Failed, 0, 5), WriteVerdict::Fail(CanError::OperationError(_))));
}

#[test]
fn socket_read_kinds() {
    assert_eq!(read_kind(FRAME_SIZE), Ok(ReadKind::Classic));
    assert_eq!(read_kind(FD_FRAME_SIZE), Ok(ReadKind::Fd));
    assert_eq!(read_kind(XL_FRAME_SIZE), Err(CanError::NotSupportedError));
    assert_eq!(read_kind(3), Err(CanError::OperationError("read frame failed".to_string())));
}

#[test]
fn length_errors_are_other_errors() {
    assert_eq!(
        rs_can::can_type(2049),
        Err(CanError::OtherError("length of frame is out of range!".to_string()))
    );
    assert_eq!(
        rs_can::is_can_fd_len(65),
        Err(CanError::OtherError("length of frame is out of range!".to_string()))
    );
}
