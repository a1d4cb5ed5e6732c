//! End-to-end scenarios over the decoding layer, with the driver played by
//! a faithful in-test stand-in that stores what it is sent and reports the
//! documented codes back.

use rust_pigpio::handle::Pigpio;
use rust_pigpio::types::{GpioMode, Level, OpError};
use rust_pigpio::types::{encode_level, encode_mode};

/// The driver accepts pins 0 to 31 on this stand-in board and reports its
/// bad-pin sentinel for anything else.
const BAD_GPIO_REPORT: i32 = -3;

#[test]
fn blink_pin_21() {
    let handle = Pigpio::from_init_report(68).unwrap();
    let pin: u32 = 21;

    // Set pin 21 to output: the stand-in driver stores the mode code and
    // reports success.
    let stored_mode: u32 = encode_mode(GpioMode::Output);
    assert!(pin < 32);
    assert_eq!(handle.decode_set_mode(0), Ok(()));

    // Write on, read back on.
    let mut stored_level: u32 = encode_level(Level::On);
    assert_eq!(handle.decode_write(0), Ok(()));
    assert_eq!(handle.decode_read(stored_level as i32), Ok(Level::On));

    // Write off, read back off.
    stored_level = encode_level(Level::Off);
    assert_eq!(handle.decode_write(0), Ok(()));
    assert_eq!(handle.decode_read(stored_level as i32), Ok(Level::Off));

    // Getting the mode back reports the stored code: still output.
    assert_eq!(handle.decode_get_mode(stored_mode as i32), Ok(GpioMode::Output));
}

#[test]
fn out_of_range_pin_is_bad_gpio_everywhere() {
    let handle = Pigpio::from_init_report(68).unwrap();
    let pin: u32 = 54;
    assert!(pin >= 32);

    // Every operation that documents the bad-pin sentinel maps the driver's
    // rejection of an out-of-range pin to the same named error.
    assert_eq!(handle.decode_set_mode(BAD_GPIO_REPORT), Err(OpError::BadGpio));
    assert_eq!(handle.decode_get_mode(BAD_GPIO_REPORT), Err(OpError::BadGpio));
    assert_eq!(
        handle.decode_set_pull_up_down(BAD_GPIO_REPORT),
        Err(OpError::BadGpio)
    );
    assert_eq!(handle.decode_read(BAD_GPIO_REPORT), Err(OpError::BadGpio));
    assert_eq!(handle.decode_write(BAD_GPIO_REPORT), Err(OpError::BadGpio));
}
