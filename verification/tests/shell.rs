use byeefree_quad::blink::BlinkMode;
use byeefree_quad::commands::{
    imu_reply, motor_directions_reply, motor_speeds_reply, set_motor_direction, set_motor_speed,
    BlinkCommand, GoCommand, GoMovingCommand,
};
use byeefree_quad::flight::{FlightModeEnum, FlightType};
use byeefree_quad::ubuffer::{UBuffer, UBufferError};
use byeefree_quad::usb::{echo_reply, Disconnected, UsbEndpointError};

#[test]
fn ubuffer_appends_until_full() {
    let mut b = UBuffer::<8>::new();
    assert_eq!(b.len(), 0);
    assert_eq!(b.write_str("abc"), Ok(()));
    assert_eq!(b.write_str("defgh"), Ok(()));
    assert_eq!(b.as_bytes(), b"abcdefgh");
    assert_eq!(b.write_str("i"), Err(UBufferError::OutOfMemory));
    assert_eq!(b.as_bytes(), b"abcdefgh");
}

#[test]
fn ubuffer_rejects_whole_write() {
    let mut b = UBuffer::<4>::new();
    assert_eq!(b.write_str("ab"), Ok(()));
    assert_eq!(b.write_str("cde"), Err(UBufferError::OutOfMemory));
    assert_eq!(b.as_bytes(), b"ab");
    assert_eq!(b.write_bytes(&[b'c', b'd']), Ok(()));
    assert_eq!(b.as_bytes(), b"abcd");
}

#[test]
fn ubuffer_constructors() {
    assert_eq!(UBuffer::<32>::default().as_bytes(), b"World");
    assert_eq!(UBuffer::<5>::from_str("hello").unwrap().as_bytes(), b"hello");
    assert!(matches!(UBuffer::<4>::from_str("hello"), Err(UBufferError::OutOfMemory)));
    assert_eq!(UBuffer::<3>::from_bytes(&[1, 2]).unwrap().as_bytes(), &[1, 2]);
    let c = UBuffer::<8>::from_str("xy").unwrap().clone();
    assert_eq!(c.as_bytes(), b"xy");
}

#[test]
fn blink_command_reply() {
    let r = BlinkCommand::On_Off_Fast.reply().unwrap();
    assert_eq!(r.as_bytes(), b"Blink mode set to: on_off_fast\n\r");
    assert_eq!(r.len(), 32);
    assert_eq!(BlinkCommand::Off.reply().unwrap().as_bytes(), b"Blink mode set to: none\n\r");
    assert_eq!(BlinkCommand::Breathe.mode(), BlinkMode::Breathe);
    assert_eq!(BlinkCommand::Off.mode(), BlinkMode::Off);
    assert_eq!(BlinkCommand::Three_Fast.name(), "three_fast");
}

#[test]
fn go_command_requests() {
    let current = FlightType { mode: FlightModeEnum::Hovering, time: 7, altitude: 10, angle: 3, radius: 4 };
    let t = GoCommand::Take_Off { altitude: 100 }.flight_request(current);
    assert_eq!(t, FlightType { mode: FlightModeEnum::TakeOff, altitude: 100, ..current });
    let c = GoCommand::Circling { radius: 50, angle: 90 }.flight_request(current);
    assert_eq!(c, FlightType { mode: FlightModeEnum::Circling, radius: 50, angle: 90, ..current });
    assert_eq!(GoCommand::Landing.flight_request(current).mode, FlightModeEnum::Landing);
    assert_eq!(GoCommand::Hovering.flight_request(current), current);
    let f = GoCommand::Moving { cmd: GoMovingCommand::Forward { time: 1000 } }.flight_request(current);
    assert_eq!(f, FlightType { mode: FlightModeEnum::Forward, time: 1000, ..current });
    let b = GoMovingCommand::Backward { time: 5 }.flight_request(current);
    assert_eq!(b, FlightType { mode: FlightModeEnum::Backward, time: 5, ..current });
    let r = GoMovingCommand::Right { time: 9 }.flight_request(current);
    assert_eq!(r, FlightType { mode: FlightModeEnum::Right, time: 9, ..current });
    let l = GoMovingCommand::Left { time: 1000 }.flight_request(current);
    assert_eq!(l, FlightType { mode: FlightModeEnum::Left, time: 1000, ..current });
}

#[test]
fn motor_set_commands() {
    assert_eq!(set_motor_speed([1, 2, 3, 4], 1, 100), [100, 2, 3, 4]);
    assert_eq!(set_motor_speed([1, 2, 3, 4], 4, 0), [1, 2, 3, 0]);
    assert_eq!(set_motor_direction([true; 4], 3, false), [true, true, false, true]);
}

#[test]
fn motor_get_replies() {
    let s = motor_speeds_reply([0, 10, 65535, 7]).unwrap();
    assert_eq!(s.as_bytes(), b"0 10 65535 7 ");
    let s2 = motor_speeds_reply([65535; 4]).unwrap();
    assert_eq!(s2.as_bytes(), b"65535 65535 65535 65535 ");
    let d = motor_directions_reply([true, false, true, true]).unwrap();
    assert_eq!(d.as_bytes(), b"true false true true");
    let d2 = motor_directions_reply([false; 4]).unwrap();
    assert_eq!(d2.as_bytes(), b"false false false false");
}

#[test]
fn imu_report_text() {
    let r = imu_reply([1, 2, 3], [0, 0, 1], [10, 20, 30], 101325).unwrap();
    assert_eq!(r.as_bytes(), b"imu: 1 2 3 0 0 1 10 20 30 101325");
}

#[test]
fn imu_report_too_long() {
    let big = u64::MAX;
    assert!(matches!(imu_reply([big; 3], [big; 3], [big; 3], big), Err(UBufferError::OutOfMemory)));
}

#[test]
fn usb_echo_and_disconnect() {
    assert_eq!(echo_reply(b"hi"), b"Received data: hi".to_vec());
    assert_eq!(echo_reply(&[]), b"Received data: ".to_vec());
    assert_eq!(Disconnected::from_endpoint_error(UsbEndpointError::Disabled), Disconnected);
}
