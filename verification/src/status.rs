//! The driver's status-code convention, and what each report means.
//!
//! Every driver call reports a plain integer: a fixed success sentinel, a
//! small set of documented negative sentinels, or some other nonzero code
//! from the driver's wider internal space. The spec functions here pin down,
//! for each pin operation, the typed result that each possible report decodes
//! to; the handle's decoders are proved against them.

use vstd::prelude::*;

use crate::types::{GpioMode, Level, OpError, mode_of_code};

verus! {

/// The driver's success sentinel.
pub const OK: i32 = 0;

/// The driver's report that initialisation failed.
pub const INIT_FAILED: i32 = -1;

/// The driver's report that a pin number is out of range for this board.
pub const BAD_GPIO: i32 = -3;

/// The driver's report that a mode code names no pin function.
pub const BAD_MODE: i32 = -4;

/// The driver's report that a level code names no digital level.
pub const BAD_LEVEL: i32 = -5;

/// The driver's report that a pull code names no pull configuration.
pub const BAD_PUD: i32 = -6;

/// What a set-mode report decodes to: success on the success sentinel, the
/// named error on each documented sentinel, and the generic unknown error on
/// any other nonzero code.
pub open spec fn set_mode_outcome(report: i32) -> Result<(), OpError> {
    if report == OK {
        Ok(())
    } else if report == BAD_GPIO {
        Err(OpError::BadGpio)
    } else if report == BAD_MODE {
        Err(OpError::BadMode)
    } else {
        Err(OpError::Unknown)
    }
}

/// What a get-mode report decodes to: the bad-pin sentinel is the named
/// error, a code naming a pin function is that function, and any other
/// report is the generic unknown error.
pub open spec fn get_mode_outcome(report: i32) -> Result<GpioMode, OpError> {
    if report == BAD_GPIO {
        Err(OpError::BadGpio)
    } else {
        match mode_of_code(report as int) {
            Some(mode) => Ok(mode),
            None => Err(OpError::Unknown),
        }
    }
}

/// What a set-pull report decodes to: success on the success sentinel, the
/// named error on each documented sentinel, and the generic unknown error on
/// any other nonzero code.
pub open spec fn pull_up_down_outcome(report: i32) -> Result<(), OpError> {
    if report == OK {
        Ok(())
    } else if report == BAD_GPIO {
        Err(OpError::BadGpio)
    } else if report == BAD_PUD {
        Err(OpError::BadPud)
    } else {
        Err(OpError::Unknown)
    }
}

/// What a read report decodes to: zero and one are the two levels, the
/// bad-pin sentinel is the named error, and any other report is the generic
/// unknown error.
pub open spec fn read_outcome(report: i32) -> Result<Level, OpError> {
    if report == 0 {
        Ok(Level::Off)
    } else if report == 1 {
        Ok(Level::On)
    } else if report == BAD_GPIO {
        Err(OpError::BadGpio)
    } else {
        Err(OpError::Unknown)
    }
}

/// What a write report decodes to: success on the success sentinel, the
/// named error on each documented sentinel, and the generic unknown error on
/// any other nonzero code.
pub open spec fn write_outcome(report: i32) -> Result<(), OpError> {
    if report == OK {
        Ok(())
    } else if report == BAD_GPIO {
        Err(OpError::BadGpio)
    } else if report == BAD_LEVEL {
        Err(OpError::BadLevel)
    } else {
        Err(OpError::Unknown)
    }
}

/// What a callback-registration report decodes to: success on the success
/// sentinel, and the generic unknown error on any other code.
pub open spec fn sampling_outcome(report: i32) -> Result<(), OpError> {
    if report == OK {
        Ok(())
    } else {
        Err(OpError::Unknown)
    }
}

} // verus!
