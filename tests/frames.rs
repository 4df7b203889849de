use rs_can::zlg::{ZCanFrameType, ZCanMsg20, ZCanTxMode};
use rs_can::{
    can_dlc, can_type, data_resize, is_can_fd_len, CanError, CanMessage, CanType, Direct, Id, DEFAULT_PADDING,
};

#[test]
fn id_from_bits_extended_rule() {
    assert_eq!(Id::from_bits(0x7FF, false), Id::Standard(0x7FF));
    assert_eq!(Id::from_bits(0x800, false), Id::Extended(0x800));
    assert_eq!(Id::from_bits(0x123, true), Id::Extended(0x123));
    assert_eq!(Id::from_bits(0xFFFF_FFFF, false), Id::Extended(0x1FFF_FFFF));
    assert_eq!(Id::from_bits(0xE000_0123, false), Id::Standard(0x123));
    assert!(!Id::from_bits(0x7E8, false).is_extended());
    assert!(Id::from_bits(0x7E8, true).is_extended());
}

#[test]
fn id_try_and_hex() {
    assert_eq!(Id::try_from_bits(0x2000_0000, false), None);
    assert_eq!(Id::try_from_bits(0x1FFF_FFFF, false), Some(Id::Extended(0x1FFF_FFFF)));
    assert_eq!(Id::from_hex("7e8", false), Some(Id::Standard(0x7E8)));
    assert_eq!(Id::from_hex("+18DAF110", false), Some(Id::Extended(0x18DA_F110)));
    assert_eq!(Id::from_hex("xyz", false), None);
    assert_eq!(Id::from_hex("", false), None);
    assert_eq!(Id::from_hex("FFFFFFFF", false), Some(Id::Extended(0x1FFF_FFFF)));
    assert_eq!(Id::try_from_hex("FFFFFFFF", false), None);
    assert_eq!(Id::try_from_hex("123", true), Some(Id::Extended(0x123)));
    assert_eq!(Id::from_bits(0x7E8, false).into_hex(), "000007E8");
    assert_eq!(Id::new_extended(0x18DA_F110).into_hex(), "18DAF110");
}

#[test]
fn id_projections() {
    assert_eq!(Id::new_extended(0x18DA_F110).standard_id(), Id::Standard((0x18DA_F110u32 >> 18) as u16));
    assert_eq!(Id::new_standard(0x123).standard_id(), Id::Standard(0x123));
    assert_eq!(Id::new_standard(0x123).as_raw(), 0x123);
    assert_eq!(Id::new_extended(0x12345).into_bits(), 0x12345);
}

#[test]
fn frame_kind_and_dlc() {
    assert_eq!(can_type(8).unwrap(), CanType::Can);
    assert_eq!(can_type(9).unwrap(), CanType::CanFd);
    assert_eq!(can_type(65).unwrap(), CanType::CanXl);
    assert!(can_type(2049).is_err());
    assert_eq!(is_can_fd_len(8).unwrap(), false);
    assert_eq!(is_can_fd_len(64).unwrap(), true);
    assert!(is_can_fd_len(65).is_err());
    assert_eq!(can_dlc(8, CanType::Can), 8);
    assert_eq!(can_dlc(9, CanType::Can), -1);
    assert_eq!(can_dlc(9, CanType::CanFd), 12);
    assert_eq!(can_dlc(33, CanType::CanFd), 48);
    assert_eq!(can_dlc(64, CanType::CanFd), 64);
    assert_eq!(can_dlc(65, CanType::CanFd), -1);
    assert_eq!(can_dlc(1, CanType::CanXl), -1);
}

#[test]
fn resize_pads_and_cuts() {
    let mut v = vec![1u8, 2];
    data_resize(&mut v, 4);
    assert_eq!(v, vec![1, 2, DEFAULT_PADDING, DEFAULT_PADDING]);
    data_resize(&mut v, 1);
    assert_eq!(v, vec![1]);
}

#[test]
fn message_construction() {
    let m = CanMessage::new(Id::from_bits(0x7E0, false), &[1, 2, 3]).unwrap();
    assert_eq!(m.length(), 3);
    assert_eq!(m.data(), &[1, 2, 3]);
    assert_eq!(m.can_type(), CanType::Can);
    assert!(!m.is_extended());
    assert_eq!(m.id(), Id::Standard(0x7E0));
    assert_eq!(m.direct(), Direct::Transmit);
    assert_eq!(m.dlc(), 3);
    assert_eq!(m.tx_mode(), 0);
    let fd = CanMessage::new(Id::from_bits(0x7E0, true), &[0u8; 20]).unwrap();
    assert_eq!(fd.can_type(), CanType::CanFd);
    assert_eq!(fd.dlc(), 20);
    assert!(CanMessage::new(Id::new_standard(1), &vec![0u8; 2049]).is_none());
    let r = CanMessage::new_remote(Id::new_standard(0x10), 4).unwrap();
    assert!(r.is_remote());
    assert_eq!(r.length(), 4);
    assert!(r.data().is_empty());
}

#[test]
fn message_setters() {
    let mut m = CanMessage::new(Id::new_standard(1), &[0u8; 12]).unwrap();
    m.set_can_type(CanType::Can);
    assert_eq!(m.length(), 8);
    assert!(!m.is_can_fd());
    m.set_can_fd(true);
    assert!(m.is_can_fd());
    m.set_timestamp(Some(5));
    assert_eq!(m.timestamp(), 5);
    m.set_timestamp(None);
    assert_eq!(m.timestamp(), 0);
    m.set_tx_mode(7);
    assert_eq!(m.tx_mode(), 0);
    m.set_tx_mode(2);
    assert_eq!(m.tx_mode(), 2);
    assert_eq!(m.timestamp(), 0);
    assert_eq!(m.length(), 8);
    m.set_channel(3);
    assert_eq!(m.channel(), 3);
    m.set_direct(Direct::Receive);
    assert_eq!(m.direct().as_str(), "Rx");
    m.set_bitrate_switch(true);
    assert!(m.is_bitrate_switch());
    m.set_esi(true);
    assert!(m.is_esi());
    m.set_error_frame(true);
    assert!(m.is_error_frame());
}

#[test]
fn message_equality() {
    let a = CanMessage::new(Id::new_standard(1), &[1, 2]).unwrap();
    let mut b = a.clone();
    b.set_channel(9);
    b.set_timestamp(Some(77));
    assert!(a == b);
    let c = CanMessage::new(Id::new_standard(1), &[1, 3]).unwrap();
    assert!(a != c);
    let r = CanMessage::new_remote(Id::new_standard(1), 2).unwrap();
    assert!(a != r);
    assert!(r != a);
}

#[test]
fn wire_round_trip_classic() {
    let m = CanMessage::new(Id::from_bits(0x18DA_F110, false), &[1, 2, 3]).unwrap();
    let w = ZCanMsg20::from_message(m.clone(), 8);
    assert_eq!(w.can_id, 0x98DA_F110);
    assert_eq!(w.can_len, 3);
    assert_eq!(w.data, vec![1, 2, 3, 0, 0, 0, 0, 0]);
    let back = w.into_message();
    assert!(back == m);
    assert_eq!(back.direct(), Direct::Receive);
    assert_eq!(back.data(), &[1, 2, 3]);
}

#[test]
fn wire_round_trip_fd() {
    let mut m = CanMessage::new(Id::from_bits(0x123, false), &[7u8; 20]).unwrap();
    m.set_bitrate_switch(true);
    m.set_esi(true);
    let mut w = ZCanMsg20::from_message(m.clone(), 64);
    assert_eq!(w.flags, 0x03);
    assert_eq!(w.data.len(), 64);
    w.set_channel(2);
    assert_eq!(w.get_channel(), 2);
    let back = w.into_message();
    assert!(back == m);
    assert!(back.is_bitrate_switch() && back.is_esi());
    assert_eq!(back.channel(), 2);
    assert_eq!(back.can_type(), CanType::CanFd);
}

#[test]
fn wire_flags_decoded() {
    let w = ZCanMsg20::new(0x6000_0123, 0, 0, vec![0u8; 8]);
    let m = w.into_message();
    assert!(m.is_remote() && m.is_error_frame() && !m.is_extended());
    assert_eq!(m.arbitration_id, 0x123);
}

#[test]
fn vendor_codes() {
    assert_eq!(ZCanTxMode::try_from(2).unwrap(), ZCanTxMode::SelfReception);
    assert!(ZCanTxMode::try_from(4).is_err());
    assert_eq!(ZCanTxMode::SelfReceptionOnce.code(), 3);
    assert_eq!(ZCanFrameType::try_from(1).unwrap(), ZCanFrameType::CANFD);
    assert_eq!(ZCanFrameType::ALL.as_str(), "CAN|CANFD");
    match ZCanFrameType::try_from(9) {
        Err(CanError::OtherError(m)) => assert_eq!(m, "parameter not supported"),
        _ => panic!("expected an error"),
    }
}

#[test]
fn usbcan_official2() {
    let m = CanMessage::new(Id::new_standard(0x7E0), &[0x02, 0x10, 0x01]).unwrap();
    let w = ZCanMsg20::from_message(m, 8);
    assert_eq!(w.data.len(), 8);
    assert_eq!(w.can_id, 0x7E0);
}
