//! The plain values that the emulation engine and this library exchange.

use vstd::prelude::*;

verus! {

/// A discrete state that the emulation engine reports.
#[derive(Clone, Copy, Debug, PartialEq, Eq, Structural)]
pub enum EmuState {
    Stopped,
    Running,
    Paused,
}

impl EmuState {
    /// The integer by which the engine reports this state.
    pub open spec fn code(self) -> i32 {
        match self {
            EmuState::Stopped => 1,
            EmuState::Running => 2,
            EmuState::Paused => 3,
        }
    }

    /// Returns the integer by which the engine reports this state.
    pub fn to_raw(self) -> (raw: i32)
        ensures
            raw == self.code(),
    {
        match self {
            EmuState::Stopped => 1,
            EmuState::Running => 2,
            EmuState::Paused => 3,
        }
    }

    /// Reads a state from the integer by which the engine reports it.
    pub fn from_raw(raw: i32) -> (state: Option<EmuState>)
        ensures
            match state {
                Some(s) => s.code() == raw,
                None => forall|s: EmuState| s.code() != raw,
            },
    {
        if raw == 1 {
            Some(EmuState::Stopped)
        } else if raw == 2 {
            Some(EmuState::Running)
        } else if raw == 3 {
            Some(EmuState::Paused)
        } else {
            None
        }
    }
}

/// A command that this library hands to the engine.
#[derive(Clone, Copy, Debug, PartialEq, Eq, Structural)]
pub enum Command {
    Nop,
    Stop,
    Pause,
    Resume,
    CoreStateSet,
    Reset,
    AdvanceFrame,
}

/// A parameter of the engine that `Command::CoreStateSet` can write.
#[derive(Clone, Copy, Debug, PartialEq, Eq, Structural)]
pub enum CoreParam {
    EmuState,
    VideoSize,
}

impl CoreParam {
    /// The integer by which the engine knows this parameter.
    pub open spec fn code(self) -> i32 {
        match self {
            CoreParam::EmuState => 1,
            CoreParam::VideoSize => 6,
        }
    }

    /// Returns the integer by which the engine knows this parameter.
    pub fn to_raw(self) -> (raw: i32)
        ensures
            raw == self.code(),
    {
        match self {
            CoreParam::EmuState => 1,
            CoreParam::VideoSize => 6,
        }
    }
}

/// Why the engine turned a command down.
#[derive(Clone, Copy, Debug, PartialEq, Eq, Structural)]
pub enum M64PError {
    NotInit,
    AlreadyInit,
    Incompatible,
    InputAssert,
    InputInvalid,
    InputNotFound,
    NoMemory,
    Files,
    Internal,
    InvalidState,
    PluginFail,
    SystemFail,
    Unsupported,
    WrongType,
}

/// One call into the engine: the command, its integer parameter, and the
/// integer that its pointer parameter points to, if it has one.
#[derive(Clone, Copy, Debug, PartialEq, Eq, Structural)]
pub struct CoreCall {
    pub command: Command,
    pub int_param: i32,
    pub payload: Option<i32>,
}

impl CoreCall {
    /// The call that hands over `command` with no parameter.
    pub open spec fn bare(command: Command) -> CoreCall {
        CoreCall { command, int_param: 0, payload: None }
    }
}

} // verus!
