//! The decoding laws: what the translation layer guarantees for every
//! possible driver report, stated once and proved, rather than left implicit
//! in the decoders' contracts.

use vstd::prelude::*;

use crate::handle::{Pigpio, init_outcome};
use crate::status::{
    BAD_GPIO, BAD_LEVEL, BAD_MODE, BAD_PUD, INIT_FAILED, OK, get_mode_outcome, pull_up_down_outcome,
    read_outcome, sampling_outcome, set_mode_outcome, write_outcome,
};
use crate::types::{GpioMode, Level, OpError, level_code, mode_code, mode_of_code};

verus! {

/// A driver success report yields `Ok` with the documented payload, for
/// every pin operation: the void operations yield the unit value, and a read
/// report of zero or one yields the matching level.
pub proof fn lemma_success_reports_yield_ok()
    ensures
        set_mode_outcome(OK) == Ok::<(), OpError>(()),
        pull_up_down_outcome(OK) == Ok::<(), OpError>(()),
        write_outcome(OK) == Ok::<(), OpError>(()),
        sampling_outcome(OK) == Ok::<(), OpError>(()),
        read_outcome(0) == Ok::<Level, OpError>(Level::Off),
        read_outcome(1) == Ok::<Level, OpError>(Level::On),
{
}

/// Each documented negative sentinel maps to its named error variant, for
/// every pin operation that documents it.
pub proof fn lemma_named_sentinels_map_to_named_errors()
    ensures
        set_mode_outcome(BAD_GPIO) == Err::<(), OpError>(OpError::BadGpio),
        set_mode_outcome(BAD_MODE) == Err::<(), OpError>(OpError::BadMode),
        get_mode_outcome(BAD_GPIO) == Err::<GpioMode, OpError>(OpError::BadGpio),
        pull_up_down_outcome(BAD_GPIO) == Err::<(), OpError>(OpError::BadGpio),
        pull_up_down_outcome(BAD_PUD) == Err::<(), OpError>(OpError::BadPud),
        read_outcome(BAD_GPIO) == Err::<Level, OpError>(OpError::BadGpio),
        write_outcome(BAD_GPIO) == Err::<(), OpError>(OpError::BadGpio),
        write_outcome(BAD_LEVEL) == Err::<(), OpError>(OpError::BadLevel),
{
}

/// No report other than a documented success payload ever decodes to `Ok`:
/// a code the decoders do not recognise surfaces as an error, never
/// silently as success.
pub proof fn lemma_no_silent_success(report: i32)
    ensures
        report != OK ==> set_mode_outcome(report) is Err,
        report != OK ==> pull_up_down_outcome(report) is Err,
        report != OK ==> write_outcome(report) is Err,
        report != OK ==> sampling_outcome(report) is Err,
        report != 0 && report != 1 ==> read_outcome(report) is Err,
        mode_of_code(report as int) is None ==> get_mode_outcome(report) is Err,
{
}

/// An initialisation failure yields no handle: the failure sentinel decodes
/// to an error, and every other report to a well-formed handle carrying it
/// as the version.
pub proof fn lemma_failed_init_yields_no_handle(report: i32)
    ensures
        report == INIT_FAILED ==> init_outcome(report) is Err,
        (init_outcome(report) matches Ok(handle) ==> handle.wf() && handle.version == report),
{
}

/// Mode round trip: setting a pin's function sends its code to the driver,
/// and a get-mode report of that same code decodes back to the function that
/// was set. So, absent external interference with the pin, getting a mode
/// after setting it returns the mode that was set.
pub proof fn lemma_mode_round_trip(mode: GpioMode)
    ensures
        get_mode_outcome(mode_code(mode) as i32) == Ok::<GpioMode, OpError>(mode),
{
}

/// Level round trip: writing a level sends its code to the driver, and a
/// read report of that same code decodes back to the level that was written.
/// So, absent external interference with the pin, reading after a write
/// returns the level that was written.
pub proof fn lemma_level_round_trip(level: Level)
    ensures
        read_outcome(level_code(level) as i32) == Ok::<Level, OpError>(level),
{
}

} // verus!
