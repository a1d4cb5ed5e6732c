//! The pin vocabulary: modes, levels and pull configurations, together with
//! the integer codes the driver understands for each.

use vstd::prelude::*;

verus! {

/// Pin function selection, as the driver's mode registers name them:
/// input, output, and the six alternate hardware functions.
#[derive(Clone, Copy, Debug, PartialEq, Eq, Structural)]
pub enum GpioMode {
    Input,
    Output,
    Alt0,
    Alt1,
    Alt2,
    Alt3,
    Alt4,
    Alt5,
}

/// Digital level of a pin: low or high.
#[derive(Clone, Copy, Debug, PartialEq, Eq, Structural)]
pub enum Level {
    Off,
    On,
}

/// Pull resistor configuration of a pin.
#[derive(Clone, Copy, Debug, PartialEq, Eq, Structural)]
pub enum Pud {
    Off,
    Down,
    Up,
}

/// The one way handle construction fails: the driver refused to initialise.
#[derive(Clone, Copy, Debug, PartialEq, Eq, Structural)]
pub enum InitError {
    Failed,
}

/// Typed form of the driver's status codes for failed pin operations: one
/// variant per documented negative sentinel, and a catch-all for every other
/// nonzero code the driver might report.
#[derive(Clone, Copy, Debug, PartialEq, Eq, Structural)]
pub enum OpError {
    BadGpio,
    BadMode,
    BadLevel,
    BadPud,
    Unknown,
}

/// The integer the driver uses for each pin function.
pub open spec fn mode_code(mode: GpioMode) -> u32 {
    match mode {
        GpioMode::Input => 0,
        GpioMode::Output => 1,
        GpioMode::Alt5 => 2,
        GpioMode::Alt4 => 3,
        GpioMode::Alt0 => 4,
        GpioMode::Alt1 => 5,
        GpioMode::Alt2 => 6,
        GpioMode::Alt3 => 7,
    }
}

/// The pin function a driver code names, if it names one.
pub open spec fn mode_of_code(code: int) -> Option<GpioMode> {
    if code == 0 {
        Some(GpioMode::Input)
    } else if code == 1 {
        Some(GpioMode::Output)
    } else if code == 2 {
        Some(GpioMode::Alt5)
    } else if code == 3 {
        Some(GpioMode::Alt4)
    } else if code == 4 {
        Some(GpioMode::Alt0)
    } else if code == 5 {
        Some(GpioMode::Alt1)
    } else if code == 6 {
        Some(GpioMode::Alt2)
    } else if code == 7 {
        Some(GpioMode::Alt3)
    } else {
        None
    }
}

/// The integer the driver uses for each digital level.
pub open spec fn level_code(level: Level) -> u32 {
    match level {
        Level::Off => 0,
        Level::On => 1,
    }
}

/// The integer the driver uses for each pull configuration.
pub open spec fn pud_code(pud: Pud) -> u32 {
    match pud {
        Pud::Off => 0,
        Pud::Down => 1,
        Pud::Up => 2,
    }
}

/// Encodes a pin function as the code the driver's set-mode call takes.
pub fn encode_mode(mode: GpioMode) -> (code: u32)
    ensures
        code == mode_code(mode),
{
    match mode {
        GpioMode::Input => 0,
        GpioMode::Output => 1,
        GpioMode::Alt5 => 2,
        GpioMode::Alt4 => 3,
        GpioMode::Alt0 => 4,
        GpioMode::Alt1 => 5,
        GpioMode::Alt2 => 6,
        GpioMode::Alt3 => 7,
    }
}

/// Encodes a digital level as the code the driver's write call takes.
pub fn encode_level(level: Level) -> (code: u32)
    ensures
        code == level_code(level),
{
    match level {
        Level::Off => 0,
        Level::On => 1,
    }
}

/// Encodes a pull configuration as the code the driver's pull call takes.
pub fn encode_pud(pud: Pud) -> (code: u32)
    ensures
        code == pud_code(pud),
{
    match pud {
        Pud::Off => 0,
        Pud::Down => 1,
        Pud::Up => 2,
    }
}

} // verus!
