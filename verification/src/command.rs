//! Commands to the engine, and the commands whose effect is a state that
//! the caller then waits for.

use vstd::prelude::*;
use std::sync::mpsc;
use crate::state::{Command, CoreCall, CoreParam, EmuState, M64PError};
use crate::resolver::Signal;
use crate::waiter::{polled, register, settled, EmulatorFuture, EmulatorWaiter, QueueClosed};

verus! {

/// The size of the window as the engine takes it: the width in the upper
/// sixteen bits and the height in the lower ones of a 32-bit word, read as
/// a signed integer.
pub open spec fn packed_size(width: u16, height: u16) -> int {
    let word = width * 0x1_0000 + height;
    if word < 0x8000_0000 {
        word
    } else {
        word - 0x1_0000_0000
    }
}

/// Computes [`packed_size`].
pub fn pack_size(width: u16, height: u16) -> (packed: i32)
    ensures
        packed == packed_size(width, height),
{
    let word: u32 = ((width as u32) << 16) | (height as u32);
    assert(word == width * 0x1_0000 + height) by (bit_vector)
        requires
            word == ((width as u32) << 16) | (height as u32),
    ;
    let packed = word as i32;
    assert(packed == if word < 0x8000_0000u32 {
        word as int
    } else {
        word - 0x1_0000_0000
    }) by (bit_vector)
        requires
            packed == word as i32,
    ;
    packed
}

/// The early failure that the outcome of issuing a command leaves in the
/// future that waits for its effect.
pub open spec fn failure_of(issued: Result<(), M64PError>) -> Option<M64PError> {
    match issued {
        Ok(_) => None,
        Err(error) => Some(error),
    }
}

/// The handle to the engine: the function that hands it one call, and the
/// queue through which waiters reach the manager on the engine's thread.
pub struct Core<E: Fn(CoreCall) -> Result<(), M64PError>> {
    engine: E,
    emu_sender: mpsc::Sender<EmulatorWaiter>,
}

impl<E: Fn(CoreCall) -> Result<(), M64PError>> Core<E> {
    /// The engine may be handed any call.
    #[verifier::type_invariant]
    spec fn engine_takes_every_call(self) -> bool {
        forall|call: CoreCall| call_requires(self.engine, (call,))
    }

    /// The function that hands the engine one call.
    pub closed spec fn engine(&self) -> E {
        self.engine
    }

    /// The queue through which waiters are registered.
    pub closed spec fn queue(&self) -> mpsc::Sender<EmulatorWaiter> {
        self.emu_sender
    }

    /// What a command that waits for a state returns: where the waiter was
    /// registered, `call` was handed to the engine once, the future waits
    /// for `value`, and it fails early exactly if the engine turned the call
    /// down, with the engine's error.
    pub open spec fn waits_after(
        &self,
        call: CoreCall,
        value: EmuState,
        returned: Result<EmulatorFuture, QueueClosed>,
    ) -> bool {
        returned matches Ok(future) ==> {
            &&& future.awaited() == value.code()
            &&& exists|issued: Result<(), M64PError>|
                {
                    &&& #[trigger] call_ensures(self.engine(), (call,), issued)
                    &&& future.early_failure() == failure_of(issued)
                }
        }
    }

    /// A handle that issues calls through `engine` and registers waiters
    /// through `emu_sender`.
    pub fn new(engine: E, emu_sender: mpsc::Sender<EmulatorWaiter>) -> (core: Self)
        requires
            forall|call: CoreCall| call_requires(engine, (call,)),
        ensures
            core.engine() == engine,
            core.queue() == emu_sender,
    {
        Self { engine, emu_sender }
    }

    /// Hands `call` to the engine.
    fn issue(&self, call: CoreCall) -> (issued: Result<(), M64PError>)
        ensures
            call_ensures(self.engine(), (call,), issued),
    {
        proof {
            use_type_invariant(self);
        }
        (self.engine)(call)
    }

    /// Issues `command` and returns the future that resolves when the
    /// engine reports `value`. The waiter is registered before the command
    /// is issued, so that no report can be missed; where it cannot be
    /// registered, the command is not issued.
    pub fn emu_state_command(&self, command: Command, value: EmuState) -> (returned: Result<
        EmulatorFuture,
        QueueClosed,
    >)
        ensures
            self.waits_after(CoreCall::bare(command), value, returned),
    {
        match register(&self.emu_sender, value.to_raw()) {
            Ok(mut future) => {
                let issued = self.issue(CoreCall { command, int_param: 0, payload: None });
                future.conclude(issued);
                Ok(future)
            },
            Err(closed) => Err(closed),
        }
    }

    /// Stops the ROM that is running, and waits for the engine to stop.
    pub fn stop(&self) -> (returned: Result<EmulatorFuture, QueueClosed>)
        ensures
            self.waits_after(CoreCall::bare(Command::Stop), EmuState::Stopped, returned),
    {
        self.emu_state_command(Command::Stop, EmuState::Stopped)
    }

    /// Pauses the ROM that is running, and waits for the engine to pause.
    pub fn pause(&self) -> (returned: Result<EmulatorFuture, QueueClosed>)
        ensures
            self.waits_after(CoreCall::bare(Command::Pause), EmuState::Paused, returned),
    {
        self.emu_state_command(Command::Pause, EmuState::Paused)
    }

    /// Resumes the ROM that is paused, and waits for the engine to run.
    pub fn resume(&self) -> (returned: Result<EmulatorFuture, QueueClosed>)
        ensures
            self.waits_after(CoreCall::bare(Command::Resume), EmuState::Running, returned),
    {
        self.emu_state_command(Command::Resume, EmuState::Running)
    }

    /// Advances the ROM by one frame, and waits for the engine to pause
    /// again.
    pub fn advance_frame(&self) -> (returned: Result<EmulatorFuture, QueueClosed>)
        ensures
            self.waits_after(CoreCall::bare(Command::AdvanceFrame), EmuState::Paused, returned),
    {
        self.emu_state_command(Command::AdvanceFrame, EmuState::Paused)
    }

    /// Waits until the engine reports `state`, asking nothing of it.
    pub fn await_emu_state(&self, state: EmuState) -> (returned: Result<
        EmulatorFuture,
        QueueClosed,
    >)
        ensures
            self.waits_after(CoreCall::bare(Command::Nop), state, returned),
    {
        self.emu_state_command(Command::Nop, state)
    }

    /// Resets the engine the hard way.
    pub fn reset(&self) -> (issued: Result<(), M64PError>)
        ensures
            call_ensures(
                self.engine(),
                (CoreCall { command: Command::Reset, int_param: 1, payload: None },),
                issued,
            ),
    {
        self.issue(CoreCall { command: Command::Reset, int_param: 1, payload: None })
    }

    /// Tells the engine the new size of the window.
    pub fn notify_resize(&self, width: u16, height: u16) -> (issued: Result<(), M64PError>)
        ensures
            exists|packed: i32|
                {
                    &&& packed == packed_size(width, height)
                    &&& #[trigger] call_ensures(
                        self.engine(),
                        (
                            CoreCall {
                                command: Command::CoreStateSet,
                                int_param: CoreParam::VideoSize.code(),
                                payload: Some(packed),
                            },
                        ),
                        issued,
                    )
                },
    {
        let packed = pack_size(width, height);
        self.issue(
            CoreCall {
                command: Command::CoreStateSet,
                int_param: CoreParam::VideoSize.to_raw(),
                payload: Some(packed),
            },
        )
    }
}

/// The future of a command that the engine turned down yields the engine's
/// error at once, whatever is reported and whether anything is; the future
/// of a command that was issued yields nothing before its waiter is tripped
/// or let go, and no error then.
pub proof fn law_refused_command_fails_at_once(error: M64PError, seen: Option<Signal>)
    ensures
        polled(failure_of(Err(error)), seen) == Some(Err::<(), M64PError>(error)),
        polled(failure_of(Ok(())), seen) == settled(seen),
        polled(failure_of(Ok(())), None) is None,
        polled(failure_of(Ok(())), Some(Signal::Fired)) == Some(Ok::<(), M64PError>(())),
{
}

} // verus!
