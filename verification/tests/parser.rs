use bmi270::hl::{ControlFrame, ControlFrameKind, FifoDataFrame, FrameParser, ParsingError, RegularFrame};
use bmi270::ll::AuxBurstLength;

fn regular(frame: Option<FifoDataFrame>) -> RegularFrame {
    match frame {
        Some(FifoDataFrame::Regular(r)) => r,
        other => panic!("expected a regular frame, got {:?}", other),
    }
}

fn control(frame: Option<FifoDataFrame>) -> ControlFrame {
    match frame {
        Some(FifoDataFrame::Control(c)) => c,
        other => panic!("expected a control frame, got {:?}", other),
    }
}

const GYR: [u8; 6] = [0x01, 0x02, 0x03, 0x04, 0x05, 0x06];
const ACC: [u8; 6] = [0x11, 0x12, 0x13, 0x14, 0x15, 0x16];

#[test]
fn regular_frame_with_gyr_and_acc() {
    let mut p = FrameParser::new(None);
    let mut data = vec![0x8C];
    data.extend_from_slice(&GYR);
    data.extend_from_slice(&ACC);
    data.extend_from_slice(&[0x80, 0x99]);
    let (n, res) = p.feed(&data);
    assert_eq!(n, 13);
    let r = regular(res.unwrap());
    assert!(r.aux.is_none());
    assert_eq!(r.gyr.unwrap().bits, GYR);
    assert_eq!(r.acc.unwrap().bits, ACC);
    assert!(p.frame_ready());
    assert!(p.try_frame().is_some());
}

#[test]
fn regular_frame_with_acc_only() {
    let mut p = FrameParser::new(None);
    let mut data = vec![0x84];
    data.extend_from_slice(&ACC);
    let (n, res) = p.feed(&data);
    assert_eq!(n, 7);
    let r = regular(res.unwrap());
    assert!(r.gyr.is_none());
    assert_eq!(r.acc.unwrap().bits, ACC);
}

#[test]
fn regular_frame_with_gyr_only() {
    let mut p = FrameParser::new(None);
    let mut data = vec![0x88];
    data.extend_from_slice(&GYR);
    data.push(0x40);
    let (n, res) = p.feed(&data);
    assert_eq!(n, 7);
    let r = regular(res.unwrap());
    assert_eq!(r.gyr.unwrap().bits, GYR);
    assert!(r.acc.is_none());
}

#[test]
fn empty_regular_frame_completes_at_header() {
    let mut p = FrameParser::new(None);
    let (n, res) = p.feed(&[0x80, 0x01, 0x02]);
    assert_eq!(n, 1);
    let r = regular(res.unwrap());
    assert!(r.aux.is_none() && r.gyr.is_none() && r.acc.is_none());
}

#[test]
fn skip_frame() {
    let mut p = FrameParser::new(None);
    let (n, res) = p.feed(&[0x40, 0x07, 0xFF]);
    assert_eq!(n, 2);
    assert!(matches!(control(res.unwrap()), ControlFrame::SkipFrame(7)));
}

#[test]
fn sensor_time_frame() {
    let mut p = FrameParser::new(None);
    let (n, res) = p.feed(&[0x44, 0x56, 0x34, 0x12]);
    assert_eq!(n, 4);
    match control(res.unwrap()) {
        ControlFrame::SensorTime(t) => {
            assert_eq!(t.bits, [0x56, 0x34, 0x12]);
            assert_eq!(t.sensor_time(), 0x123456);
        }
        other => panic!("unexpected {:?}", other),
    }
}

#[test]
fn fifo_input_config_frame() {
    let mut p = FrameParser::new(None);
    let (n, res) = p.feed(&[0x48, 1, 2, 3, 4, 5]);
    assert_eq!(n, 5);
    match control(res.unwrap()) {
        ControlFrame::FifoInputConfig(c) => assert_eq!(c, [1, 2, 3, 4]),
        other => panic!("unexpected {:?}", other),
    }
}

#[test]
fn refused_headers() {
    for h in [0x00u8, 0x3F, 0xC0, 0xFF, 0x4C, 0x5C] {
        let mut p = FrameParser::new(None);
        let (n, res) = p.feed(&[h, 0x01]);
        assert_eq!(n, 0);
        assert!(matches!(res, Err(ParsingError)));
        assert!(!p.frame_ready());
        assert!(p.try_frame().is_none());
    }
}

#[test]
fn refusal_after_frame_bytes() {
    let mut p = FrameParser::new(None);
    let (n, res) = p.feed(&[0x40, 0x02]);
    assert_eq!(n, 2);
    assert!(res.unwrap().is_some());
    p.reset();
    let (n, res) = p.feed(&[0x00]);
    assert_eq!(n, 0);
    assert!(res.is_err());
}

#[test]
fn feeding_in_pieces() {
    let mut p = FrameParser::new(None);
    let mut data = vec![0x8C];
    data.extend_from_slice(&GYR);
    data.extend_from_slice(&ACC);
    let (n, res) = p.feed(&data[..5]);
    assert_eq!(n, 5);
    assert!(matches!(res, Ok(None)));
    assert!(!p.frame_ready());
    assert!(p.try_frame().is_some());
    let (n, res) = p.feed(&data[5..]);
    assert_eq!(n, 8);
    let r = regular(res.unwrap());
    assert_eq!(r.gyr.unwrap().bits, GYR);
    assert_eq!(r.acc.unwrap().bits, ACC);
}

#[test]
fn partial_sample_is_not_in_frame() {
    let mut p = FrameParser::new(None);
    let (n, res) = p.feed(&[0x8C, 1, 2, 3, 4, 5, 6, 7]);
    assert_eq!(n, 8);
    assert!(matches!(res, Ok(None)));
    let r = regular(p.try_frame());
    assert_eq!(r.gyr.unwrap().bits, [1, 2, 3, 4, 5, 6]);
    assert!(r.acc.is_none());
}

#[test]
fn stream_of_frames_with_reset() {
    let mut p = FrameParser::new(None);
    let mut data = vec![0x40, 0x01, 0x88];
    data.extend_from_slice(&GYR);
    data.extend_from_slice(&[0x44, 9, 8, 7]);
    let mut start = 0;
    let mut frames = Vec::new();
    while start < data.len() {
        let (n, res) = p.feed(&data[start..]);
        start += n;
        if let Some(f) = res.unwrap() {
            frames.push(f);
            p.reset();
        }
    }
    assert_eq!(frames.len(), 3);
    assert!(matches!(frames[0], FifoDataFrame::Control(ControlFrame::SkipFrame(1))));
    match &frames[1] {
        FifoDataFrame::Regular(r) => assert_eq!(r.gyr.unwrap().bits, GYR),
        other => panic!("unexpected {:?}", other),
    }
    match &frames[2] {
        FifoDataFrame::Control(ControlFrame::SensorTime(t)) => assert_eq!(t.sensor_time(), 0x0708_09),
        other => panic!("unexpected {:?}", other),
    }
}

#[test]
fn without_reset_a_complete_frame_is_returned_again() {
    let mut p = FrameParser::new(None);
    let (n, _) = p.feed(&[0x40, 0x05]);
    assert_eq!(n, 2);
    let (n, res) = p.feed(&[0x06]);
    assert_eq!(n, 1);
    assert!(matches!(control(res.unwrap()), ControlFrame::SkipFrame(5)));
}

#[test]
fn empty_input() {
    let mut p = FrameParser::new(None);
    let (n, res) = p.feed(&[]);
    assert_eq!(n, 0);
    assert!(matches!(res, Ok(None)));
}

#[test]
fn aux_flag_without_burst_length_is_skipped() {
    let mut p = FrameParser::new(None);
    let mut data = vec![0x9C];
    data.extend_from_slice(&GYR);
    data.extend_from_slice(&ACC);
    let (n, res) = p.feed(&data);
    assert_eq!(n, 13);
    let r = regular(res.unwrap());
    assert!(r.aux.is_none());
    assert_eq!(r.gyr.unwrap().bits, GYR);
    assert_eq!(r.acc.unwrap().bits, ACC);
}

#[test]
fn aux_flag_with_burst_length_never_completes() {
    let mut p = FrameParser::new(Some(AuxBurstLength::Bl2));
    let data = [0x9C; 40];
    let (n, res) = p.feed(&data);
    assert_eq!(n, 40);
    assert!(matches!(res, Ok(None)));
    assert!(!p.frame_ready());
    let r = regular(p.try_frame());
    assert!(r.aux.is_none());
}

#[test]
fn burst_length_without_aux_flag() {
    let mut p = FrameParser::new(Some(AuxBurstLength::Bl8));
    let mut data = vec![0x84];
    data.extend_from_slice(&ACC);
    let (n, res) = p.feed(&data);
    assert_eq!(n, 7);
    assert_eq!(regular(res.unwrap()).acc.unwrap().bits, ACC);
}

#[test]
fn new_parser_has_no_frame() {
    let p = FrameParser::new(Some(AuxBurstLength::Bl1));
    assert!(!p.frame_ready());
    assert!(p.try_frame().is_none());
}

#[test]
fn regular_frame_empty() {
    let r = RegularFrame::empty();
    assert!(r.aux.is_none());
    assert!(r.gyr.is_none());
    assert!(r.acc.is_none());
}

#[test]
fn control_frame_kind_len() {
    assert_eq!(ControlFrameKind::SkipFrame.len(), 1);
    assert_eq!(ControlFrameKind::SensorTime.len(), 3);
    assert_eq!(ControlFrameKind::FifoInputConfig.len(), 4);
}
