use bmi270::ll::field_sets::{Acc, Gyr, SensorTime};
use bmi270::ll::spi::{read_preamble, write_preamble, READ_FLAG};
use bmi270::ll::{AuxBurstLength, DeviceError};
use bmi270::timeout::{conv_wtimeout_res, MyTimeoutError};

#[test]
fn aux_burst_lengths() {
    assert_eq!(u8::from(AuxBurstLength::Bl1), 1);
    assert_eq!(u8::from(AuxBurstLength::Bl2), 2);
    assert_eq!(u8::from(AuxBurstLength::Bl6), 6);
    let n: u8 = AuxBurstLength::Bl8.into();
    assert_eq!(n, 8);
}

#[test]
fn device_error_from_interface_error() {
    let e: DeviceError<u32> = DeviceError::from(17u32);
    assert_eq!(e, DeviceError::Interface(17));
    let e: DeviceError<&str> = "bus".into();
    assert_eq!(e, DeviceError::Interface("bus"));
    assert!(DeviceError::Interface(0u8) < DeviceError::BufferTooSmall);
}

#[test]
fn preambles() {
    assert_eq!(write_preamble(0x12), [0x12]);
    assert_eq!(read_preamble(0x12), [0x92, 0x00]);
    assert_eq!(read_preamble(0x80), [0x80, 0x00]);
    assert_eq!(read_preamble(0x7F), [0xFF, 0x00]);
    assert_eq!(READ_FLAG, 0x80);
}

#[test]
fn axis_values() {
    let g = Gyr::from([0x01, 0x00, 0xFF, 0xFF, 0x00, 0x80]);
    assert_eq!(g.x(), 1);
    assert_eq!(g.y(), -1);
    assert_eq!(g.z(), i16::MIN);
    let a = Acc::from([0xFF, 0x7F, 0x34, 0x12, 0x00, 0x00]);
    assert_eq!(a.x(), i16::MAX);
    assert_eq!(a.y(), 0x1234);
    assert_eq!(a.z(), 0);
}

#[test]
fn sensor_time_value() {
    let t = SensorTime::from([0xFF, 0xFF, 0xFF]);
    assert_eq!(t.sensor_time(), 0xFF_FFFF);
    let t = SensorTime::from([0x01, 0x00, 0x00]);
    assert_eq!(t.sensor_time(), 1);
}

#[test]
fn timeout_result_flattening() {
    let ok: Result<Result<u8, &str>, embassy_time::TimeoutError> = Ok(Ok(5));
    assert!(matches!(conv_wtimeout_res(ok), Ok(5)));
    let err: Result<Result<u8, &str>, embassy_time::TimeoutError> = Ok(Err("nack"));
    assert!(matches!(conv_wtimeout_res(err), Err(MyTimeoutError::Error("nack"))));
    let timed_out: Result<Result<u8, &str>, embassy_time::TimeoutError> =
        Err(embassy_time::TimeoutError);
    assert!(matches!(conv_wtimeout_res(timed_out), Err(MyTimeoutError::Timeout(_))));
}
