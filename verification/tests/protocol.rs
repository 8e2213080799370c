use byeefree_quad::frame_state_machine::FrameStateMachine;
use byeefree_quad::atk_defines::{
    accelerometer_fsr, gyro_fsr, AtkMs901mError, AtkMs901mFrame, AtkMs901mFrameAckId,
    AtkMs901mLedState, AtkMs901mPort, AtkMs901mPortMode, ATK_MS901M_READ_REG_ID,
    ATK_MS901M_WRITE_REG_ID,
};
use byeefree_quad::atk_protocol::{
    frame_wait_step, i16_from_le, FrameWaitStep, i32_from_le, led_state_reply, port_mode_reply, read_reg_request,
    read_reg_response, readback_result, u16_from_le, u16_register_reply, u16_to_le,
    write_reg_request,
};

fn frame_with(dat: &[u8], len: u8) -> AtkMs901mFrame {
    let mut f = AtkMs901mFrame::default();
    f.dat[..dat.len()].copy_from_slice(dat);
    f.len = len;
    f
}

#[test]
fn register_ids() {
    assert_eq!(ATK_MS901M_READ_REG_ID(0x03), 0x83);
    assert_eq!(ATK_MS901M_READ_REG_ID(0x83), 0x83);
    assert_eq!(ATK_MS901M_WRITE_REG_ID(0x0F), 0x0F);
    assert_eq!(AtkMs901mFrameAckId::RegReset.code(), 0x7F);
    assert_eq!(AtkMs901mFrameAckId::RegD3Period.code(), 0x23);
}

#[test]
fn read_request_bytes() {
    let r = read_reg_request(AtkMs901mFrameAckId::RegGyroFsr.code());
    assert_eq!(r, vec![0x55, 0xAF, 0x83, 1, 0, 136]);
}

#[test]
fn write_request_bytes() {
    let one = write_reg_request(0x0F, 1, &[1]).unwrap();
    let s1 = (0x55u32 + 0xAF + 0x0F + 1 + 1) % 256;
    assert_eq!(one, vec![0x55, 0xAF, 0x0F, 1, 1, s1 as u8]);
    let two = write_reg_request(0x16, 2, &[0x34, 0x12]).unwrap();
    let s2 = (0x55u32 + 0xAF + 0x16 + 2 + 0x34 + 0x12) % 256;
    assert_eq!(two, vec![0x55, 0xAF, 0x16, 2, 0x34, 0x12, s2 as u8]);
    assert_eq!(write_reg_request(0x16, 3, &[1, 2, 3]), Err(AtkMs901mError::Invalid));
    assert_eq!(write_reg_request(0x16, 0, &[]), Err(AtkMs901mError::Invalid));
}

#[test]
fn read_response_copies_announced_bytes() {
    let f = frame_with(&[9, 8, 7, 6], 2);
    let mut dat = [0xEEu8; 4];
    assert_eq!(read_reg_response(true, &f, &mut dat), Ok(2));
    assert_eq!(dat, [9, 8, 0xEE, 0xEE]);
    let mut dat2 = [1u8; 2];
    assert_eq!(read_reg_response(false, &f, &mut dat2), Err(AtkMs901mError::Invalid));
    assert_eq!(dat2, [1, 1]);
}

#[test]
fn read_response_length_beyond_data_field() {
    let f = frame_with(&[5; 28], 200);
    let mut dat = [0u8; 30];
    assert_eq!(read_reg_response(true, &f, &mut dat), Ok(200));
    assert!(dat[..28].iter().all(|&b| b == 5));
    assert_eq!(&dat[28..], &[0, 0]);
}

#[test]
fn little_endian_values() {
    assert_eq!(i16_from_le(0xFF, 0xFF), -1);
    assert_eq!(i16_from_le(0x00, 0x80), -32768);
    assert_eq!(i16_from_le(0x34, 0x12), 0x1234);
    assert_eq!(u16_from_le(0xFF, 0xFF), 0xFFFF);
    assert_eq!(u16_from_le(0x34, 0x12), 0x1234);
    assert_eq!(i32_from_le(0xE2, 0x8B, 0x01, 0x00), 101346);
    assert_eq!(i32_from_le(0x50, 0xFF, 0xFF, 0xFF), -176);
    assert_eq!(u16_to_le(0x1234), [0x34, 0x12]);
}

#[test]
fn u16_roundtrip_both_ways() {
    for v in [0u16, 1, 255, 256, 0x1234, 0xFFFF] {
        let b = u16_to_le(v);
        assert_eq!(u16_from_le(b[0], b[1]), v);
    }
    for (lo, hi) in [(0u8, 0u8), (0xFF, 0x01), (0x12, 0xAB)] {
        assert_eq!(u16_to_le(u16_from_le(lo, hi)), [lo, hi]);
    }
}

#[test]
fn frame_decoders() {
    let f = frame_with(&[0x00, 0x80, 0xFF, 0x7F, 0x01, 0x00, 0x10, 0x00, 0xFF, 0xFF, 0x02, 0x00], 12);
    assert_eq!(f.attitude_raw(), [-32768, 32767, 1]);
    assert_eq!(f.quaternion_raw(), [-32768, 32767, 1, 16]);
    let acc = f.accelerometer_raw();
    assert_eq!((acc.x, acc.y, acc.z), (-32768, 32767, 1));
    let gyro = f.gyro_raw();
    assert_eq!((gyro.x, gyro.y, gyro.z), (16, -1, 2));
    let (mag, temp) = f.magnetometer_raw();
    assert_eq!((mag.x, mag.y, mag.z, temp), (-32768, 32767, 1, 16));
    let ports = f.port_data();
    assert_eq!((ports.d0, ports.d1, ports.d2, ports.d3), (0x8000, 0x7FFF, 1, 16));
    let b = frame_with(&[226, 139, 1, 0, 80, 255, 255, 255, 29, 11], 10);
    assert_eq!(b.barometer_raw(), (101346, -176, 2845));
}

#[test]
fn port_registers() {
    assert_eq!(AtkMs901mPort::D0.mode_register(), AtkMs901mFrameAckId::RegD0Mode);
    assert_eq!(AtkMs901mPort::D3.mode_register(), AtkMs901mFrameAckId::RegD3Mode);
    assert_eq!(AtkMs901mPort::D1.pulse_register(), Ok(AtkMs901mFrameAckId::RegD1Pulse));
    assert_eq!(AtkMs901mPort::D0.pulse_register(), Err(AtkMs901mError::Invalid));
    assert_eq!(AtkMs901mPort::D3.period_register(), Ok(AtkMs901mFrameAckId::RegD3Period));
    assert_eq!(AtkMs901mPort::D2.period_register(), Err(AtkMs901mError::Invalid));
}

#[test]
fn register_replies() {
    assert_eq!(led_state_reply(Err(AtkMs901mError::Invalid), 0), Err(AtkMs901mError::Error));
    assert_eq!(led_state_reply(Ok(1), 0), Ok(AtkMs901mLedState::On));
    assert_eq!(led_state_reply(Ok(1), 1), Ok(AtkMs901mLedState::Off));
    assert_eq!(led_state_reply(Ok(1), 2), Err(AtkMs901mError::Invalid));
    assert_eq!(port_mode_reply(Err(AtkMs901mError::Invalid), 0), Err(AtkMs901mError::Error));
    assert_eq!(port_mode_reply(Ok(1), 4), Ok(AtkMs901mPortMode::OutputPwm));
    assert_eq!(port_mode_reply(Ok(1), 5), Err(AtkMs901mError::Invalid));
    assert_eq!(u16_register_reply(Ok(2), [0x34, 0x12]), Ok(0x1234));
    assert_eq!(u16_register_reply(Err(AtkMs901mError::Invalid), [0, 0]), Err(AtkMs901mError::Error));
    assert_eq!(readback_result(5, 5), Ok(()));
    assert_eq!(readback_result(5, 6), Err(AtkMs901mError::Error));
}

#[test]
fn codes_and_tables() {
    assert_eq!(AtkMs901mLedState::Off.code(), 1);
    assert_eq!(AtkMs901mLedState::from_byte(7), Err(AtkMs901mError::Invalid));
    assert_eq!(AtkMs901mPortMode::OutputLow.code(), 3);
    assert_eq!(AtkMs901mPortMode::from_byte(1), Ok(AtkMs901mPortMode::Input));
    assert_eq!(gyro_fsr(0), 250);
    assert_eq!(gyro_fsr(3), 2000);
    assert_eq!(accelerometer_fsr(2), 8);
}

#[test]
fn frame_wait_step_outcomes() {
    let mut sm = FrameStateMachine::new();
    let r = frame_wait_step(&mut sm, Err(AtkMs901mError::UartError), &[0x55, 0x55], 1, 0, 5, 10);
    assert!(matches!(r, FrameWaitStep::Finished(Err(AtkMs901mError::UartError))));
    assert_eq!(sm.dat_index, 0);

    let r = frame_wait_step(&mut sm, Ok(()), &[0x55, 0x55, 0x01, 0x00, 0xAB], 1, 0, 5, 10);
    match r {
        FrameWaitStep::Finished(Ok(f)) => {
            assert_eq!((f.head_l, f.head_h, f.id, f.len, f.check_sum), (0x55, 0x55, 1, 0, 0xAB))
        }
        _ => panic!("a frame was expected"),
    }

    let r = frame_wait_step(&mut sm, Ok(()), &[0x55, 0x55, 0x01, 0x00, 0xAC], 1, 0, 5, 10);
    assert!(matches!(r, FrameWaitStep::Finished(Err(AtkMs901mError::Checksum))));

    let mut sm = FrameStateMachine::new();
    let r = frame_wait_step(&mut sm, Ok(()), &[0x55, 0x55, 0x01], 1, 0, 5, 10);
    assert!(matches!(r, FrameWaitStep::KeepWaiting));
    let r = frame_wait_step(&mut sm, Ok(()), &[0x00], 1, 0, 11, 10);
    assert!(matches!(r, FrameWaitStep::Finished(Err(AtkMs901mError::Timeout))));
    let r = frame_wait_step(&mut sm, Ok(()), &[0xAB], 1, 0, 12, 10);
    assert!(matches!(r, FrameWaitStep::Finished(Ok(f)) if f.id == 1 && f.len == 0));
}
