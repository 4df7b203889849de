use rs_can::isotp::{
    Address, AddressType, CanIsoTp, FlowControlContext, FlowControlState, Iso15765Error, IsoTpEvent, IsoTpFrame,
    WaitVerdict, CONSECUTIVE_FRAME_SIZE, FIRST_FRAME_SIZE_2004, STATE_ERROR, STATE_IDLE, STATE_SENDING,
    STATE_WAIT_BUSY, STATE_WAIT_FLOW_CTRL,
};
use rs_can::{CAN_FRAME_MAX_SIZE, DEFAULT_PADDING};

#[test]
fn test_single() {
    let data = hex::decode("0210010000000000").unwrap();
    let frame = IsoTpFrame::decode(&data).unwrap();
    match frame.clone() {
        IsoTpFrame::SingleFrame { data } => {
            assert_eq!(data, hex::decode("1001").unwrap());
        }
        _ => {
            panic!("Invalid frame type");
        }
    }
    assert_eq!(frame.encode(Some(0x00)), data.to_vec());

    let frame = IsoTpFrame::SingleFrame { data: hex::decode("1001").unwrap() };
    assert_eq!(frame.encode(Some(0x00)), data.to_vec());
}

#[test]
fn test_first() {
    let data = hex::decode("100f62f187445643").unwrap();
    let frame = IsoTpFrame::decode(&data).unwrap();
    match frame.clone() {
        IsoTpFrame::FirstFrame { length, data } => {
            assert_eq!(length, 0x0f);
            assert_eq!(data, hex::decode("62f187445643").unwrap());
        }
        _ => {
            panic!("Invalid frame type");
        }
    }
    assert_eq!(frame.encode(None), data.to_vec());

    let frame = IsoTpFrame::FirstFrame { length: 0x0f, data: hex::decode("62f187445643").unwrap() };
    assert_eq!(frame.encode(None), data.to_vec());
}

#[test]
fn test_consecutive() {
    let data = hex::decode("2137453230303030").unwrap();
    let frame = IsoTpFrame::decode(&data).unwrap();
    match frame.clone() {
        IsoTpFrame::ConsecutiveFrame { sequence, data } => {
            assert_eq!(sequence, 1);
            assert_eq!(data, hex::decode("37453230303030").unwrap());
        }
        _ => {
            panic!("Invalid frame type");
        }
    }
    assert_eq!(frame.encode(None), data.to_vec());

    let frame = IsoTpFrame::ConsecutiveFrame { sequence: 1, data: hex::decode("37453230303030").unwrap() };
    assert_eq!(frame.encode(None), data.to_vec());
}

#[test]
fn test_flow_control() {
    let data = hex::decode("3080015555555555").unwrap();
    let frame = IsoTpFrame::decode(&data).unwrap();
    match frame.clone() {
        IsoTpFrame::FlowControlFrame(context) => {
            assert_eq!(context.state(), FlowControlState::Continues);
            assert_eq!(context.block_size(), 0x80);
            assert_eq!(context.st_min(), 0x01);
        }
        _ => {
            panic!("Invalid frame type");
        }
    }
    assert_eq!(frame.encode(Some(0x55)), data);

    let frame = IsoTpFrame::default_flow_ctrl_frame();
    assert_eq!(frame.encode(Some(0x55)), hex::decode("30000a5555555555").unwrap());
}

#[test]
fn test_data_to_multi() {
    let data = hex::decode("62f187445643374532303030303037").unwrap();
    let frames = IsoTpFrame::from_data(&data).unwrap();
    assert_eq!(frames.len(), 3);
    for (index, frame) in frames.into_iter().enumerate() {
        match index {
            0 => {
                assert_eq!(frame.encode(None), hex::decode("100f62f187445643").unwrap());
            }
            1 => {
                assert_eq!(frame.encode(None), hex::decode("2137453230303030").unwrap());
            }
            2 => assert_eq!(frame.encode(None), hex::decode("223037aaaaaaaaaa").unwrap()),
            _ => panic!(),
        }
    }

    let mut size = 0x96;
    let data = vec![0x30; size];
    let frames = IsoTpFrame::from_data(&data).unwrap();
    for (index, frame) in frames.into_iter().enumerate() {
        match index {
            0 => {
                size -= FIRST_FRAME_SIZE_2004;
                assert_eq!(frame.encode(None), hex::decode("1096303030303030").unwrap())
            }
            1..=15 => {
                size -= CONSECUTIVE_FRAME_SIZE;
                let expect = vec![0x20 + index as u8, 0x30, 0x30, 0x30, 0x30, 0x30, 0x30, 0x30];
                assert_eq!(frame.encode(None), expect);
            }
            _ => {
                if size > CONSECUTIVE_FRAME_SIZE {
                    size -= CONSECUTIVE_FRAME_SIZE;
                    let expect = vec![0x20 + (index % 16) as u8, 0x30, 0x30, 0x30, 0x30, 0x30, 0x30, 0x30];
                    assert_eq!(frame.encode(None), expect);
                } else {
                    let mut expect = vec![0x20 + (index % 16) as u8];
                    for _ in 0..size {
                        expect.push(0x30);
                    }
                    expect.resize(CAN_FRAME_MAX_SIZE, DEFAULT_PADDING);
                    assert_eq!(frame.encode(None), expect);
                }
            }
        }
    }
}

#[test]
fn segmentation_sequences_wrap() {
    let data = vec![0x30u8; 150];
    let frames = IsoTpFrame::from_data(&data).unwrap();
    let sequences: Vec<u8> = frames
        .iter()
        .skip(1)
        .map(|f| match f {
            IsoTpFrame::ConsecutiveFrame { sequence, .. } => *sequence,
            _ => panic!("expected a consecutive frame"),
        })
        .collect();
    assert_eq!(frames.len(), 22);
    assert_eq!(sequences, vec![1, 2, 3, 4, 5, 6, 7, 8, 9, 10, 11, 12, 13, 14, 15, 0, 1, 2, 3, 4, 5]);
    assert_eq!(frames[21].clone().encode(None), vec![0x25, 0x30, 0x30, 0x30, 0x30, 0xAA, 0xAA, 0xAA]);
    assert_eq!(sequences.iter().filter(|s| **s == 0).count(), 1);
}

#[test]
fn segmentation_concatenates_to_payload() {
    let data: Vec<u8> = (0..200u32).map(|i| (i * 7 % 256) as u8).collect();
    let frames = IsoTpFrame::from_data(&data).unwrap();
    let mut joined = Vec::new();
    for f in &frames {
        match f {
            IsoTpFrame::FirstFrame { length, data } => {
                assert_eq!(*length, 200);
                joined.extend_from_slice(data);
            }
            IsoTpFrame::ConsecutiveFrame { data, .. } => joined.extend_from_slice(data),
            _ => panic!("unexpected frame"),
        }
    }
    assert_eq!(joined, data);
}

#[test]
fn segmentation_boundary_mtu() {
    let seven = vec![1u8, 2, 3, 4, 5, 6, 7];
    let frames = IsoTpFrame::from_data(&seven).unwrap();
    assert_eq!(frames.len(), 1);
    assert_eq!(frames[0].clone().encode(None), vec![0x07, 1, 2, 3, 4, 5, 6, 7]);

    let eight = vec![1u8, 2, 3, 4, 5, 6, 7, 8];
    let frames = IsoTpFrame::from_data(&eight).unwrap();
    assert_eq!(frames.len(), 2);
    assert_eq!(frames[0], IsoTpFrame::FirstFrame { length: 8, data: vec![1, 2, 3, 4, 5, 6] });
    assert_eq!(frames[1], IsoTpFrame::ConsecutiveFrame { sequence: 1, data: vec![7, 8] });
}

#[test]
fn segmentation_errors() {
    assert_eq!(IsoTpFrame::from_data(&[]), Err(Iso15765Error::EmptyPdu));
}

#[test]
fn segmentation_escape_first_frame() {
    let data = vec![0x11u8; 0x1000];
    let frames = IsoTpFrame::from_data(&data).unwrap();
    assert_eq!(frames[0], IsoTpFrame::FirstFrame { length: 0x1000, data: vec![0x11, 0x11] });
    assert_eq!(frames[0].clone().encode(None), vec![0x10, 0x00, 0x00, 0x00, 0x10, 0x00, 0x11, 0x11]);
    assert_eq!(frames.len(), 1 + (0x1000 - 2 + 6) / 7);
    let decoded = IsoTpFrame::decode(&[0x10, 0x00, 0x00, 0x00, 0x10, 0x00, 0x11, 0x11]).unwrap();
    assert_eq!(decoded, frames[0]);
}

#[test]
fn decode_errors() {
    assert_eq!(IsoTpFrame::decode(&[]), Err(Iso15765Error::EmptyPdu));
    assert_eq!(IsoTpFrame::decode(&[0x02, 0x10]), Err(Iso15765Error::InvalidPdu(vec![0x02, 0x10])));
    assert_eq!(
        IsoTpFrame::decode(&[0x10, 0x0F, 0x62]),
        Err(Iso15765Error::InvalidDataLength { actual: 3, expect: 8 })
    );
    assert_eq!(
        IsoTpFrame::decode(&[0x02, 0, 0, 0, 0, 0, 0, 0, 0]),
        Err(Iso15765Error::LengthOutOfRange(9))
    );
    assert_eq!(IsoTpFrame::decode(&[0x07, 1, 2]), Err(Iso15765Error::InvalidPdu(vec![0x07, 1, 2])));
    assert_eq!(IsoTpFrame::decode(&[0x33, 0, 0]), Err(Iso15765Error::InvalidPdu(vec![0x33, 0, 0])));
    assert_eq!(IsoTpFrame::decode(&[0x40, 0, 0]), Err(Iso15765Error::InvalidPdu(vec![0x40, 0, 0])));
}

#[test]
fn single_frame_constructor() {
    assert_eq!(IsoTpFrame::single_frame(&[1, 2]), Ok(IsoTpFrame::SingleFrame { data: vec![1, 2] }));
    assert_eq!(IsoTpFrame::single_frame(&[]), Err(Iso15765Error::EmptyPdu));
    assert_eq!(IsoTpFrame::single_frame(&[0; 8]), Err(Iso15765Error::LengthOutOfRange(8)));
}

#[test]
fn flow_control_round_trip() {
    let frame = IsoTpFrame::flow_ctrl_frame(FlowControlState::Wait, 4, 0xF3).unwrap();
    let bytes = frame.clone().encode(None);
    assert_eq!(bytes, vec![0x31, 0x04, 0xF3, 0xAA, 0xAA, 0xAA, 0xAA, 0xAA]);
    assert_eq!(IsoTpFrame::decode(&bytes), Ok(frame));
}

#[test]
fn st_min_delays() {
    assert_eq!(FlowControlContext::new(FlowControlState::Continues, 0, 0).st_min_us(), 0);
    assert_eq!(FlowControlContext::new(FlowControlState::Continues, 0, 0x0A).st_min_us(), 10_000);
    assert_eq!(FlowControlContext::new(FlowControlState::Continues, 0, 0xF1).st_min_us(), 100);
    assert_eq!(FlowControlContext::new(FlowControlState::Continues, 0, 0xF9).st_min_us(), 900);
    assert_eq!(FlowControlContext::new(FlowControlState::Continues, 0, 0x80).st_min_us(), 127_000);
}

fn address() -> Address {
    Address { tx_id: 0x7E0, rx_id: 0x7E8, fid: 0x7DF }
}

#[test]
fn channel_reassembles_message() {
    let mut ch = CanIsoTp::new(0, address());
    let r = ch.on_frame_received(0, 0x7E8, &hex::decode("100f62f187445643").unwrap());
    assert_eq!(r.event, Some(IsoTpEvent::FirstFrameReceived));
    let reply = r.reply.unwrap();
    assert_eq!((reply.id, reply.channel), (0x7E0, 0));
    assert_eq!(reply.frame, IsoTpFrame::default_flow_ctrl_frame());
    let r = ch.on_frame_received(0, 0x7E8, &hex::decode("2137453230303030").unwrap());
    assert_eq!(r.event, None);
    let r = ch.on_frame_received(0, 0x7E8, &hex::decode("223037aaaaaaaaaa").unwrap());
    assert_eq!(r.event, Some(IsoTpEvent::DataReceived(hex::decode("62f187445643374532303030303037").unwrap())));
}

#[test]
fn channel_sequence_error() {
    let mut ch = CanIsoTp::new(0, address());
    ch.on_frame_received(0, 0x7E8, &hex::decode("100f62f187445643").unwrap());
    let r = ch.on_frame_received(0, 0x7E8, &hex::decode("2237453230303030").unwrap());
    assert_eq!(r.event, Some(IsoTpEvent::ErrorOccurred(Iso15765Error::InvalidSequence { received: 2, expected: 1 })));
    assert_eq!(ch.state.bits, STATE_ERROR);
    let r = ch.on_frame_received(0, 0x7E8, &hex::decode("0210010000000000").unwrap());
    assert_eq!(r.event, None);
}

#[test]
fn channel_ignores_other_ids() {
    let mut ch = CanIsoTp::new(0, address());
    let r = ch.on_frame_received(0, 0x123, &hex::decode("0210010000000000").unwrap());
    assert_eq!(r.event, None);
    let r = ch.on_frame_received(1, 0x7E8, &hex::decode("0210010000000000").unwrap());
    assert_eq!(r.event, None);
    let r = ch.on_frame_received(0, 0x7E8, &hex::decode("0210010000000000").unwrap());
    assert_eq!(r.event, Some(IsoTpEvent::DataReceived(vec![0x10, 0x01])));
}

#[test]
fn channel_flow_control_and_pacing() {
    let mut ch = CanIsoTp::new(0, address());
    let (id, frames) = ch.write(AddressType::Functional, &[0u8; 20]).unwrap();
    assert_eq!(id, 0x7DF);
    assert_eq!(frames.len(), 3);
    ch.before_send(true);
    assert_eq!(ch.state.bits, STATE_SENDING | STATE_WAIT_FLOW_CTRL);
    assert_eq!(ch.wait_verdict(0), WaitVerdict::Pending);
    assert_eq!(ch.wait_verdict(1001), WaitVerdict::Failed(Iso15765Error::Timeout { value: 1000 }));
    ch.on_frame_transmitted(0, 0x7DF);
    assert_eq!(ch.state.bits, STATE_WAIT_FLOW_CTRL);
    let r = ch.on_frame_received(0, 0x7E8, &[0x30, 0x02, 0xF5, 0, 0, 0, 0, 0]);
    assert_eq!(r.event, None);
    assert_eq!(ch.state.bits, STATE_IDLE);
    assert_eq!(ch.wait_verdict(5000), WaitVerdict::Proceed);
    assert_eq!(ch.write_waiting(0), (1, 500));
    assert_eq!(ch.write_waiting(1), (0, 500));
    assert_eq!(ch.state.bits, STATE_WAIT_FLOW_CTRL);
    let r = ch.on_frame_received(0, 0x7E8, &[0x31, 0, 0, 0, 0, 0, 0, 0]);
    assert_eq!(r.event, Some(IsoTpEvent::Wait));
    assert_eq!(ch.state.bits, STATE_WAIT_FLOW_CTRL | STATE_WAIT_BUSY);
    assert_eq!(ch.wait_verdict(5001), WaitVerdict::Failed(Iso15765Error::Timeout { value: 5000 }));
    let r = ch.on_frame_received(0, 0x7E8, &[0x32, 0, 0, 0, 0, 0, 0, 0]);
    assert_eq!(r.event, Some(IsoTpEvent::ErrorOccurred(Iso15765Error::OverloadFlow)));
    assert_eq!(ch.state.bits, STATE_ERROR);
    assert_eq!(ch.wait_verdict(0), WaitVerdict::Failed(Iso15765Error::DeviceError));
}

#[test]
fn block_size_zero_never_waits() {
    let mut ch = CanIsoTp::new(0, address());
    ch.on_frame_received(0, 0x7E8, &[0x30, 0x00, 0x00, 0, 0, 0, 0, 0]);
    for i in 0..40 {
        assert_eq!(ch.write_waiting(i), (i, 0));
    }
    assert_eq!(ch.state.bits, STATE_IDLE);
}

#[test]
fn p2_context_caps() {
    let mut ch = CanIsoTp::new(0, address());
    ch.set_p2_context(100, 1000);
    assert_eq!(ch.context.p2_ctx.p2_ms(), 50);
    assert_eq!(ch.context.p2_ctx.p2_star_ms(), 5000);
    ch.set_p2_context(20, 30);
    assert_eq!(ch.context.p2_ctx.p2_ms(), 20);
    assert_eq!(ch.context.p2_ctx.p2_star_ms(), 300);
    ch.before_send(false);
    ch.state.append(STATE_WAIT_BUSY);
    ch.state.remove(STATE_SENDING);
    assert_eq!(ch.wait_verdict(301), WaitVerdict::Failed(Iso15765Error::Timeout { value: 300 }));
}
