//! The handle that stands for a live driver session.
//!
//! The driver is a process-wide singleton: it is initialised once, pin
//! operations are valid only between a successful initialisation and
//! termination, and termination must run exactly once. This crate enforces
//! the initialise-before-use invariant with ownership: a `Pigpio` value can
//! only be built from a successful initialisation report, and every decoder
//! for a pin-operation report is a method on it, so no pin operation is
//! callable without a live handle. Termination itself is a foreign call with
//! no report, so the embedding program owns it: it wraps this handle in a
//! type whose drop glue terminates the driver, which runs exactly once on
//! every exit path.
//!
//! Two known gaps, stated rather than papered over: nothing here prevents
//! building a second live handle while one exists, although the driver is a
//! process-wide singleton and would reject or corrupt a second
//! initialisation; and a registered sampling callback can never be
//! unregistered, so it stays owed to the driver for the rest of the
//! process's life.

use vstd::prelude::*;

use crate::status::{
    BAD_GPIO, BAD_LEVEL, BAD_MODE, BAD_PUD, INIT_FAILED, OK, get_mode_outcome, pull_up_down_outcome,
    read_outcome, sampling_outcome, set_mode_outcome, write_outcome,
};
use crate::types::{GpioMode, InitError, Level, OpError};

verus! {

/// A live driver session. `version` is what the driver reported at
/// initialisation, and is never the failure sentinel.
#[derive(Debug)]
pub struct Pigpio {
    pub version: i32,
}

/// What an initialisation report yields: no handle at all on the failure
/// sentinel, and a handle carrying the reported version otherwise.
pub open spec fn init_outcome(report: i32) -> Result<Pigpio, InitError> {
    if report == INIT_FAILED {
        Err(InitError::Failed)
    } else {
        Ok(Pigpio { version: report })
    }
}

impl Pigpio {
    /// A handle only ever carries a version from a successful
    /// initialisation, never the failure sentinel.
    pub open spec fn wf(self) -> bool {
        self.version != INIT_FAILED
    }

    /// Builds the handle from the driver's initialisation report. The
    /// failure sentinel yields an error and no handle exists; any other
    /// report yields a well-formed handle carrying it as the version.
    pub fn from_init_report(report: i32) -> (result: Result<Pigpio, InitError>)
        ensures
            result == init_outcome(report),
            result is Ok <==> report != INIT_FAILED,
            (result matches Ok(handle) ==> handle.wf()),
    {
        if report == INIT_FAILED {
            Err(InitError::Failed)
        } else {
            Ok(Pigpio { version: report })
        }
    }

    /// Decodes the driver's report from a set-mode call.
    pub fn decode_set_mode(&self, report: i32) -> (result: Result<(), OpError>)
        ensures
            result == set_mode_outcome(report),
    {
        if report == OK {
            Ok(())
        } else if report == BAD_GPIO {
            Err(OpError::BadGpio)
        } else if report == BAD_MODE {
            Err(OpError::BadMode)
        } else {
            Err(OpError::Unknown)
        }
    }

    /// Decodes the driver's report from a get-mode call into the pin
    /// function it names.
    pub fn decode_get_mode(&self, report: i32) -> (result: Result<GpioMode, OpError>)
        ensures
            result == get_mode_outcome(report),
    {
        if report == BAD_GPIO {
            Err(OpError::BadGpio)
        } else if report == 0 {
            Ok(GpioMode::Input)
        } else if report == 1 {
            Ok(GpioMode::Output)
        } else if report == 2 {
            Ok(GpioMode::Alt5)
        } else if report == 3 {
            Ok(GpioMode::Alt4)
        } else if report == 4 {
            Ok(GpioMode::Alt0)
        } else if report == 5 {
            Ok(GpioMode::Alt1)
        } else if report == 6 {
            Ok(GpioMode::Alt2)
        } else if report == 7 {
            Ok(GpioMode::Alt3)
        } else {
            Err(OpError::Unknown)
        }
    }

    /// Decodes the driver's report from a set-pull call.
    pub fn decode_set_pull_up_down(&self, report: i32) -> (result: Result<(), OpError>)
        ensures
            result == pull_up_down_outcome(report),
    {
        if report == OK {
            Ok(())
        } else if report == BAD_GPIO {
            Err(OpError::BadGpio)
        } else if report == BAD_PUD {
            Err(OpError::BadPud)
        } else {
            Err(OpError::Unknown)
        }
    }

    /// Decodes the driver's report from a read call into the level it
    /// names.
    pub fn decode_read(&self, report: i32) -> (result: Result<Level, OpError>)
        ensures
            result == read_outcome(report),
    {
        if report == 0 {
            Ok(Level::Off)
        } else if report == 1 {
            Ok(Level::On)
        } else if report == BAD_GPIO {
            Err(OpError::BadGpio)
        } else {
            Err(OpError::Unknown)
        }
    }

    /// Decodes the driver's report from a write call.
    pub fn decode_write(&self, report: i32) -> (result: Result<(), OpError>)
        ensures
            result == write_outcome(report),
    {
        if report == OK {
            Ok(())
        } else if report == BAD_GPIO {
            Err(OpError::BadGpio)
        } else if report == BAD_LEVEL {
            Err(OpError::BadLevel)
        } else {
            Err(OpError::Unknown)
        }
    }

    /// Decodes the driver's report from registering the sampling callback.
    pub fn decode_set_get_samples_func(&self, report: i32) -> (result: Result<(), OpError>)
        ensures
            result == sampling_outcome(report),
    {
        if report == OK {
            Ok(())
        } else {
            Err(OpError::Unknown)
        }
    }
}

} // verus!
