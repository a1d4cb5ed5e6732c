//! Round trips through the driver's integer codes, and the sampling
//! bitmask.

use rust_pigpio::handle::Pigpio;
use rust_pigpio::sample::Sample;
use rust_pigpio::types::{GpioMode, Level};
use rust_pigpio::types::{encode_level, encode_mode};

#[test]
fn mode_round_trip_for_every_mode() {
    let handle = Pigpio::from_init_report(68).unwrap();
    let modes = vec![
        GpioMode::Input,
        GpioMode::Output,
        GpioMode::Alt0,
        GpioMode::Alt1,
        GpioMode::Alt2,
        GpioMode::Alt3,
        GpioMode::Alt4,
        GpioMode::Alt5,
    ];
    for mode in modes {
        let sent: u32 = encode_mode(mode);
        assert_eq!(handle.decode_get_mode(sent as i32), Ok(mode));
    }
}

#[test]
fn level_round_trip_for_both_levels() {
    let handle = Pigpio::from_init_report(68).unwrap();
    for level in vec![Level::Off, Level::On] {
        let sent: u32 = encode_level(level);
        assert_eq!(handle.decode_read(sent as i32), Ok(level));
    }
}

#[test]
fn sample_bitmask_reads_one_bit_per_pin() {
    let sample = Sample { tick: 1250, level: 0b0010_0000_0000_0000_0000_0101 };
    assert_eq!(sample.pin_level(0), Level::On);
    assert_eq!(sample.pin_level(1), Level::Off);
    assert_eq!(sample.pin_level(2), Level::On);
    assert_eq!(sample.pin_level(21), Level::On);
    assert_eq!(sample.pin_level(22), Level::Off);
    assert_eq!(sample.pin_level(31), Level::Off);
}

#[test]
fn sample_with_empty_bitmask_is_all_off() {
    let sample = Sample { tick: 0, level: 0 };
    for pin in 0u32..32u32 {
        assert_eq!(sample.pin_level(pin), Level::Off);
    }
}

#[test]
fn sample_with_full_bitmask_is_all_on() {
    let sample = Sample { tick: u32::MAX, level: u32::MAX };
    for pin in 0u32..32u32 {
        assert_eq!(sample.pin_level(pin), Level::On);
    }
}
