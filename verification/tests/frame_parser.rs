use byeefree_quad::atk_defines::{
    ATK_MS901M_FRAME_ID_TYPE_ACK, ATK_MS901M_FRAME_ID_TYPE_UPLOAD,
    AtkMs901mError, AtkMs901mFrame, AtkMs901mFrameUploadId, AtkMs901mHandleState,
};
use byeefree_quad::frame_state_machine::FrameStateMachine;
use std::convert::TryFrom;

const DMA_SAMPLE_DATA: &[u8] = &[
    174, 85, 85, 6, 8, 12, 0, 2, 0, 0, 0, 6, 1, 205, 85, 85, 1, 6, 2, 228, 100, 255, 26, 103, 123,
    85, 85, 2, 8, 143, 36, 228, 243, 158, 214, 214, 114, 250, 85, 85, 3, 12, 117, 0, 153, 235,
    214, 24, 1, 0, 253, 255, 0, 0, 157, 85, 85, 6, 8, 0, 0, 0, 0, 0, 0, 6, 1, 191, 85, 85, 5, 10,
    226, 139, 1, 0, 80, 255, 255, 255, 29, 11, 156, 85, 85, 1, 6, 2, 228, 100, 255, 26, 103, 123,
    85, 85, 2, 8, 143, 36, 228, 243, 158, 214, 214, 114, 250, 85, 85, 3, 12, 122, 0, 158, 235,
    207, 24, 15, 0, 245, 255, 253, 255, 162, 85, 85, 6, 8, 0, 0, 0, 0, 0, 0, 7, 1, 192, 85, 85, 1,
    6, 2, 228, 100, 255, 26, 103, 123, 85, 85, 2, 8, 143, 36, 228, 243, 158, 214, 214, 114, 250,
    85, 85, 3, 12, 127, 0, 155, 235, 205, 24, 2, 0, 0, 0, 255, 255, 163, 85, 85, 6, 8, 0, 0, 0, 0,
    0, 0, 6, 1, 191, 85, 85, 1, 6, 2, 228, 100, 255, 26, 103, 123, 85, 85, 2, 8, 143, 36, 228,
    243, 157, 214, 214, 114, 249, 85, 85, 3, 12, 128, 0, 173, 235, 202, 24, 1, 0, 1, 0, 2, 0, 183,
    85, 85, 6, 8, 0, 0, 0, 0, 0, 0, 5, 1, 190, 85, 85, 1, 6, 2, 228, 100, 255, 26, 103, 123,
];

fn feed(sm: &mut FrameStateMachine, bytes: &[u8], id: u8) -> Vec<AtkMs901mFrame> {
    let mut out = Vec::new();
    for &b in bytes {
        if let Some(r) = sm.process_byte(b, id, ATK_MS901M_FRAME_ID_TYPE_UPLOAD) {
            out.push(r.expect("the checksum byte matches"));
        }
    }
    out
}

fn is_initial(sm: &FrameStateMachine) -> bool {
    sm.state == AtkMs901mHandleState::WaitForHeadL
        && sm.dat_index == 0
        && sm.frame.head_l == 0
        && sm.frame.head_h == 0
        && sm.frame.id == 0
        && sm.frame.len == 0
        && sm.frame.check_sum == 0
        && sm.frame.dat.iter().all(|&b| b == 0)
}

#[test]
fn new_parser_waits_for_header() {
    let sm = FrameStateMachine::new();
    assert!(is_initial(&sm));
}

#[test]
fn empty_frame_is_parsed() {
    let mut sm = FrameStateMachine::new();
    let frames = feed(&mut sm, &[0x55, 0x55, 0x01, 0x00, 0xAB], 1);
    assert_eq!(0xAB, ((0x55u32 + 0x55 + 0x01) % 256) as u8);
    assert_eq!(frames.len(), 1);
    let f = frames[0];
    assert_eq!((f.head_l, f.head_h, f.id, f.len), (0x55, 0x55, 0x01, 0));
    assert_eq!(f.check_sum, ((0x55u32 + 0x55 + 0x01) % 256) as u8);
    assert!(f.dat.iter().all(|&b| b == 0));
    assert!(is_initial(&sm));
}

#[test]
fn frame_data_has_announced_length() {
    let mut sm = FrameStateMachine::new();
    let data: [u8; 8] = [12, 0, 2, 0, 0, 0, 6, 1];
    let mut wire = vec![0x55, 0x55, 0x06, 0x08];
    wire.extend_from_slice(&data);
    wire.push(205);
    for (k, &b) in wire.iter().enumerate() {
        let r = sm.process_byte(b, 6, 0);
        if k + 1 < wire.len() {
            assert!(r.is_none());
        } else {
            let f = r.unwrap().unwrap();
            assert_eq!((f.head_l, f.head_h, f.id, f.len), (0x55, 0x55, 6, 8));
            assert_eq!(&f.dat[..8], &data[..]);
            assert!(f.dat[8..].iter().all(|&b| b == 0));
            assert_eq!(f.check_sum, 205);
        }
    }
    assert!(is_initial(&sm));
}

#[test]
fn one_byte_frame_ends_after_its_byte() {
    let mut sm = FrameStateMachine::new();
    for &b in &[0x55, 0x55, 0x01, 0x01, 0x07] {
        assert!(sm.process_byte(b, 1, 0).is_none());
    }
    assert_eq!(sm.state, AtkMs901mHandleState::WaitForSum);
    assert_eq!(sm.dat_index, 1);
    let sum = ((0x55u32 + 0x55 + 0x01 + 0x01 + 0x07) % 256) as u8;
    let f = sm.process_byte(sum, 1, 0).unwrap().unwrap();
    assert_eq!(f.len, 1);
    assert_eq!(f.dat[0], 7);
    assert!(is_initial(&sm));
}

#[test]
fn checksum_mismatch_is_reported() {
    let mut sm = FrameStateMachine::new();
    for &b in &[0x55, 0x55, 0x01, 0x01, 0x07] {
        assert!(sm.process_byte(b, 1, 0).is_none());
    }
    assert!(matches!(sm.process_byte(0x07, 1, 0), Some(Err(AtkMs901mError::Checksum))));
    assert!(is_initial(&sm));
    let mut sm = FrameStateMachine::new();
    for &b in &[0x55, 0x55, 0x01, 0x00] {
        assert!(sm.process_byte(b, 1, 0).is_none());
    }
    assert!(matches!(sm.process_byte(0x00, 1, 0), Some(Err(AtkMs901mError::Checksum))));
    assert!(is_initial(&sm));
}

#[test]
fn noise_before_header_is_ignored() {
    let mut sm = FrameStateMachine::new();
    assert!(feed(&mut sm, &[0x00, 0x12, 0xFF, 0xAF], 1).is_empty());
    assert!(is_initial(&sm));
}

#[test]
fn ack_header_is_rejected() {
    let mut sm = FrameStateMachine::new();
    assert!(feed(&mut sm, &[0x55, 0xAF], 1).is_empty());
    assert!(is_initial(&sm));
}

#[test]
fn unknown_identifier_resets() {
    let mut sm = FrameStateMachine::new();
    assert!(feed(&mut sm, &[0x55, 0x55, 0x07], 7).is_empty());
    assert!(is_initial(&sm));
    assert!(feed(&mut sm, &[0x55, 0x55, 0x00], 0).is_empty());
    assert!(is_initial(&sm));
}

#[test]
fn overlong_length_resets() {
    let mut sm = FrameStateMachine::new();
    assert!(feed(&mut sm, &[0x55, 0x55, 0x02, 29], 2).is_empty());
    assert!(is_initial(&sm));
    assert!(feed(&mut sm, &[0x55, 0x55, 0x02, 28], 2).is_empty());
    assert_eq!(sm.state, AtkMs901mHandleState::WaitForDat);
}

#[test]
fn reset_returns_to_initial_state() {
    let mut sm = FrameStateMachine::new();
    feed(&mut sm, &[0x55, 0x55, 0x03, 0x04, 0x10], 3);
    assert!(!is_initial(&sm));
    sm.reset();
    assert!(is_initial(&sm));
}

#[test]
fn out_of_range_index_resets() {
    let mut sm = FrameStateMachine::new();
    sm.state = AtkMs901mHandleState::WaitForDat;
    sm.dat_index = 40;
    assert!(sm.process_byte(1, 0, 0).is_none());
    assert!(is_initial(&sm));
}

#[test]
fn sample_stream_frames() {
    let mut sm = FrameStateMachine::new();
    let ports = feed(&mut sm, DMA_SAMPLE_DATA, 6);
    assert_eq!(ports.len(), 5);
    assert!(ports.iter().all(|f| f.id == 6 && f.len == 8));
    assert_eq!(&ports[0].dat[..8], &[12, 0, 2, 0, 0, 0, 6, 1]);
    assert_eq!(ports[0].check_sum, 205);
    let sums: Vec<u8> = ports.iter().map(|f| f.check_sum).collect();
    assert_eq!(sums, vec![205, 191, 192, 191, 190]);
    assert!(is_initial(&sm));

    let mut sm = FrameStateMachine::new();
    let attitudes = feed(&mut sm, DMA_SAMPLE_DATA, 1);
    assert_eq!(attitudes.len(), 5);
    assert!(attitudes.iter().all(|f| f.id == 1 && f.len == 6 && f.check_sum == 123));
    assert_eq!(&attitudes[0].dat[..6], &[2, 228, 100, 255, 26, 103]);

    let mut sm = FrameStateMachine::new();
    let baro = feed(&mut sm, DMA_SAMPLE_DATA, 5);
    assert_eq!(baro.len(), 1);
    assert_eq!(&baro[0].dat[..10], &[226, 139, 1, 0, 80, 255, 255, 255, 29, 11]);
    assert_eq!(baro[0].check_sum, 156);

    let counts: Vec<usize> = (1u8..=6)
        .map(|id| feed(&mut FrameStateMachine::new(), DMA_SAMPLE_DATA, id).len())
        .collect();
    assert_eq!(counts, vec![5, 4, 4, 0, 1, 5]);
    for id in 1u8..=6 {
        let frames = feed(&mut FrameStateMachine::new(), DMA_SAMPLE_DATA, id);
        assert!(frames.iter().all(|f| f.dat[f.len as usize..].iter().all(|&b| b == 0)));
    }
}

#[test]
fn process_bytes_stops_at_first_frame() {
    let mut sm = FrameStateMachine::new();
    let r = sm.process_bytes(DMA_SAMPLE_DATA, 6, ATK_MS901M_FRAME_ID_TYPE_UPLOAD).unwrap().unwrap();
    assert_eq!(r.id, 6);
    assert_eq!(r.len, 8);
    assert_eq!(r.check_sum, 205);
    assert!(is_initial(&sm));
    let mut sm = FrameStateMachine::new();
    let r = sm.process_bytes(DMA_SAMPLE_DATA, 2, ATK_MS901M_FRAME_ID_TYPE_UPLOAD).unwrap().unwrap();
    assert_eq!((r.id, r.len, r.check_sum), (2, 8, 250));
    let mut sm2 = FrameStateMachine::new();
    assert!(sm2.process_bytes(&DMA_SAMPLE_DATA[..13], 6, 0).is_none());
    assert_eq!(sm2.state, AtkMs901mHandleState::WaitForSum);
    let mut sm2 = FrameStateMachine::new();
    assert!(sm2.process_bytes(&DMA_SAMPLE_DATA[14..20], 1, 0).is_none());
    assert_eq!(sm2.state, AtkMs901mHandleState::WaitForDat);
    assert_eq!(sm2.dat_index, 2);
}

#[test]
fn other_identifier_is_skipped() {
    // frame 2 then frame 1; asked for frame 1
    let mut wire = vec![0x55, 0x55, 0x02, 0x01, 0x09];
    wire.push(((0x55u32 + 0x55 + 2 + 1 + 9) % 256) as u8);
    wire.extend_from_slice(&[0x55, 0x55, 0x01, 0x01, 0x07]);
    wire.push(((0x55u32 + 0x55 + 1 + 1 + 7) % 256) as u8);
    let mut sm = FrameStateMachine::new();
    let f = sm.process_bytes(&wire, 1, ATK_MS901M_FRAME_ID_TYPE_UPLOAD).unwrap().unwrap();
    assert_eq!((f.id, f.len, f.dat[0]), (1, 1, 7));
    let mut sm = FrameStateMachine::new();
    assert!(sm.process_bytes(&wire[..6], 1, ATK_MS901M_FRAME_ID_TYPE_UPLOAD).is_none());
}

#[test]
fn answer_frames_need_the_answer_header() {
    let sum = ((0x55u32 + 0xAF + 0x03 + 1 + 2) % 256) as u8;
    let answer = [0x55, 0xAF, 0x03, 0x01, 0x02, sum];
    let mut sm = FrameStateMachine::new();
    let f = sm.process_bytes(&answer, 0x03, ATK_MS901M_FRAME_ID_TYPE_ACK).unwrap().unwrap();
    assert_eq!((f.head_l, f.head_h, f.id, f.len, f.dat[0], f.check_sum), (0x55, 0xAF, 3, 1, 2, sum));
    // an answer is not an uploaded frame
    let mut sm = FrameStateMachine::new();
    assert!(sm.process_bytes(&answer, 0x03, ATK_MS901M_FRAME_ID_TYPE_UPLOAD).is_none());
    // an uploaded frame is not an answer
    let upload_sum = ((0x55u32 + 0x55 + 0x03 + 1 + 2) % 256) as u8;
    let upload = [0x55, 0x55, 0x03, 0x01, 0x02, upload_sum];
    let mut sm = FrameStateMachine::new();
    assert!(sm.process_bytes(&upload, 0x03, ATK_MS901M_FRAME_ID_TYPE_ACK).is_none());
    assert!(is_initial(&sm));
}

#[test]
fn process_bytes_without_frame() {
    let mut sm = FrameStateMachine::new();
    assert!(sm.process_bytes(&[1, 2, 3], 0, 0).is_none());
    assert!(is_initial(&sm));
}

#[test]
fn upload_id_conversions() {
    assert_eq!(u8::from(AtkMs901mFrameUploadId::Attitude), 1);
    assert_eq!(u8::from(AtkMs901mFrameUploadId::Port), 6);
    assert_eq!(AtkMs901mFrameUploadId::try_from(5u8), Ok(AtkMs901mFrameUploadId::Baro));
    assert_eq!(AtkMs901mFrameUploadId::try_from(0u8), Err(()));
    assert_eq!(AtkMs901mFrameUploadId::try_from(7u8), Err(()));
    for v in 1u8..=6 {
        assert_eq!(u8::from(AtkMs901mFrameUploadId::try_from(v).unwrap()), v);
    }
}

#[test]
fn error_codes() {
    assert_eq!(AtkMs901mError::NoError.code(), 0);
    assert_eq!(AtkMs901mError::UartError.code(), 5);
}
