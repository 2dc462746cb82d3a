//! The life of the engine as its owner steers it: not started, ready, or
//! running on a thread of its own.
//!
//! The work itself (loading libraries, reading files, starting and joining
//! threads) is not done here. The model decides: it answers a request with
//! the first task to perform, and the outcome of each task with the next
//! one, until the request is settled.

use vstd::prelude::*;
use std::path::PathBuf;
use crate::state::EmuState;

verus! {

/// `std::path::PathBuf`, carried as an opaque value.
#[verifier::external_type_specification]
#[verifier::external_body]
pub struct ExPathBuf(PathBuf);

/// What the owner asks for.
#[derive(Debug)]
pub enum Request {
    Init,
    StartRom(PathBuf),
    StopRom,
}

/// Where the engine is between two requests.
#[derive(Clone, Copy, Debug, PartialEq, Eq, Structural)]
pub enum Phase {
    /// The engine has not been started.
    Uninit,
    /// The engine is there and no ROM runs.
    Ready,
    /// A ROM runs on the engine's thread, which shares the handle.
    Running,
}

/// One of the four plugins, in the order in which they are loaded.
#[derive(Clone, Copy, Debug, PartialEq, Eq, Structural)]
pub enum Plugin {
    Graphics,
    Audio,
    Input,
    Rsp,
}

/// A piece of work that the model asks for and whose outcome it awaits.
#[derive(Clone, Copy, Debug, PartialEq, Eq, Structural)]
pub enum Task {
    /// Find the engine's library and start the engine.
    InitCore,
    /// Read the ROM file.
    ReadRom,
    /// Issue the stop command and wait until the engine has stopped.
    StopCore,
    /// Join the engine's thread.
    JoinThread,
    /// Take the handle back from sharing; this fails while anyone else
    /// still holds it.
    ReclaimCore,
    /// Load one plugin.
    LoadPlugin(Plugin),
    /// Hand the ROM to the engine.
    OpenRom,
    /// Attach the four plugins.
    AttachPlugins,
    /// Share the handle and start the engine's thread.
    SpawnThread,
    /// Wait until the engine reports that it runs.
    AwaitRunning,
    /// Detach the plugins.
    DetachPlugins,
    /// Close the ROM.
    CloseRom,
}

/// The request that is being worked on.
#[derive(Clone, Copy, Debug, PartialEq, Eq, Structural)]
pub enum Flow {
    Init,
    Start,
    Stop,
}

/// What the model tells its owner.
#[derive(Clone, Copy, Debug, PartialEq, Eq, Structural)]
pub enum Update {
    /// The engine has been started.
    CoreReady,
    /// The task failed, and the request was given up.
    Error(Task),
    /// The engine has reached the state.
    EmuStateChange(EmuState),
}

/// A broken rule of the life cycle. None can be recovered from: whoever
/// sees one must stop.
#[derive(Clone, Copy, Debug, PartialEq, Eq, Structural)]
pub enum Fault {
    /// `Init` was asked of an engine that had been started.
    AlreadyInitialized,
    /// `StartRom` was asked of an engine that had not been started.
    NotInitialized,
    /// `StopRom` was asked while no ROM ran.
    NotRunning,
    /// A task failed that must not fail.
    TaskFailed(Task),
    /// A request came while another was being worked on.
    Busy,
    /// An outcome came while no task was awaited.
    NoTask,
}

/// Whether a request is being worked on, and which task is awaited.
#[derive(Clone, Copy, Debug, PartialEq, Eq, Structural)]
pub enum Stage {
    Idle,
    Busy { flow: Flow, task: Task },
}

/// The state of the model.
#[derive(Clone, Copy, Debug, PartialEq, Eq, Structural)]
pub struct State {
    pub phase: Phase,
    pub stage: Stage,
}

/// The model's answer to an outcome: the phase from now on, what to tell
/// the owner, and the task to perform next, if the request is not settled.
#[derive(Clone, Copy, Debug, PartialEq, Eq, Structural)]
pub struct Turn {
    pub phase: Phase,
    pub emit: Option<Update>,
    pub next: Option<Task>,
}

/// The flow that a request starts.
pub open spec fn flow_of(request: Request) -> Flow {
    match request {
        Request::Init => Flow::Init,
        Request::StartRom(_) => Flow::Start,
        Request::StopRom => Flow::Stop,
    }
}

/// The first task of a flow that is asked for in `phase`, or the rule that
/// asking for it breaks.
pub open spec fn first_task(phase: Phase, flow: Flow) -> Result<Task, Fault> {
    match flow {
        Flow::Init => if phase is Uninit {
            Ok(Task::InitCore)
        } else {
            Err(Fault::AlreadyInitialized)
        },
        Flow::Start => if phase is Uninit {
            Err(Fault::NotInitialized)
        } else {
            Ok(Task::ReadRom)
        },
        Flow::Stop => if phase is Running {
            Ok(Task::StopCore)
        } else {
            Err(Fault::NotRunning)
        },
    }
}

/// The turn that follows when `task` has succeeded.
pub open spec fn after_success(phase: Phase, flow: Flow, task: Task) -> Turn {
    match task {
        Task::InitCore => Turn { phase: Phase::Ready, emit: Some(Update::CoreReady), next: None },
        Task::ReadRom => Turn {
            phase,
            emit: None,
            next: Some(
                if phase is Running {
                    Task::StopCore
                } else {
                    Task::LoadPlugin(Plugin::Graphics)
                },
            ),
        },
        Task::StopCore => Turn { phase, emit: None, next: Some(Task::JoinThread) },
        Task::JoinThread => Turn { phase, emit: None, next: Some(Task::ReclaimCore) },
        Task::ReclaimCore => Turn {
            phase: Phase::Ready,
            emit: None,
            next: Some(
                if flow is Stop {
                    Task::DetachPlugins
                } else {
                    Task::LoadPlugin(Plugin::Graphics)
                },
            ),
        },
        Task::LoadPlugin(Plugin::Graphics) => Turn {
            phase,
            emit: None,
            next: Some(Task::LoadPlugin(Plugin::Audio)),
        },
        Task::LoadPlugin(Plugin::Audio) => Turn {
            phase,
            emit: None,
            next: Some(Task::LoadPlugin(Plugin::Input)),
        },
        Task::LoadPlugin(Plugin::Input) => Turn {
            phase,
            emit: None,
            next: Some(Task::LoadPlugin(Plugin::Rsp)),
        },
        Task::LoadPlugin(Plugin::Rsp) => Turn { phase, emit: None, next: Some(Task::OpenRom) },
        Task::OpenRom => Turn { phase, emit: None, next: Some(Task::AttachPlugins) },
        Task::AttachPlugins => Turn { phase, emit: None, next: Some(Task::SpawnThread) },
        Task::SpawnThread => Turn { phase, emit: None, next: Some(Task::AwaitRunning) },
        Task::AwaitRunning => Turn {
            phase: Phase::Running,
            emit: Some(Update::EmuStateChange(EmuState::Running)),
            next: None,
        },
        Task::DetachPlugins => Turn { phase, emit: None, next: Some(Task::CloseRom) },
        Task::CloseRom => Turn { phase, emit: None, next: None },
    }
}

/// The turn that follows when `task` has failed, or the rule that its
/// failure breaks. A ROM that cannot be read, a plugin that cannot be
/// loaded and a ROM that the engine does not take end the request with a
/// report; so do plugins that cannot be attached, once the ROM is closed
/// again. No other task may fail.
pub open spec fn after_failure(phase: Phase, task: Task) -> Result<Turn, Fault> {
    match task {
        Task::ReadRom | Task::LoadPlugin(_) | Task::OpenRom => Ok(
            Turn { phase, emit: Some(Update::Error(task)), next: None },
        ),
        Task::AttachPlugins => Ok(
            Turn { phase, emit: Some(Update::Error(task)), next: Some(Task::CloseRom) },
        ),
        _ => Err(Fault::TaskFailed(task)),
    }
}

/// Whether `task` can be awaited in `phase` as part of `flow`.
pub open spec fn fits(phase: Phase, flow: Flow, task: Task) -> bool {
    match task {
        Task::InitCore => flow is Init && phase is Uninit,
        Task::ReadRom => flow is Start && !(phase is Uninit),
        Task::StopCore | Task::JoinThread | Task::ReclaimCore => !(flow is Init)
            && phase is Running,
        Task::LoadPlugin(_) | Task::OpenRom | Task::AttachPlugins | Task::SpawnThread
        | Task::AwaitRunning => flow is Start && phase is Ready,
        Task::DetachPlugins => flow is Stop && phase is Ready,
        Task::CloseRom => !(flow is Init) && phase is Ready,
    }
}

impl State {
    /// Whether the state can be reached.
    pub open spec fn wf(self) -> bool {
        match self.stage {
            Stage::Idle => true,
            Stage::Busy { flow, task } => fits(self.phase, flow, task),
        }
    }

    /// The task that is awaited, if a request is being worked on.
    pub open spec fn task(self) -> Option<Task> {
        match self.stage {
            Stage::Idle => None,
            Stage::Busy { task, .. } => Some(task),
        }
    }

    /// The state after a request, with the task to perform first; or the
    /// rule that the request breaks.
    pub open spec fn on_request(self, flow: Flow) -> Result<(State, Task), Fault> {
        match self.stage {
            Stage::Busy { .. } => Err(Fault::Busy),
            Stage::Idle => match first_task(self.phase, flow) {
                Ok(task) => Ok((State { phase: self.phase, stage: Stage::Busy { flow, task } }, task)),
                Err(fault) => Err(fault),
            },
        }
    }

    /// The state after the outcome of the awaited task, with the model's
    /// answer; or the rule that the outcome breaks.
    pub open spec fn on_outcome(self, succeeded: bool) -> Result<(State, Turn), Fault> {
        match self.stage {
            Stage::Idle => Err(Fault::NoTask),
            Stage::Busy { flow, task } => {
                let turn = if succeeded {
                    Ok(after_success(self.phase, flow, task))
                } else {
                    after_failure(self.phase, task)
                };
                match turn {
                    Ok(turn) => Ok((State { phase: turn.phase, stage: staged(flow, turn.next) }, turn)),
                    Err(fault) => Err(fault),
                }
            },
        }
    }
}

/// The stage in which `next` is awaited as part of `flow`.
pub open spec fn staged(flow: Flow, next: Option<Task>) -> Stage {
    match next {
        Some(task) => Stage::Busy { flow, task },
        None => Stage::Idle,
    }
}

/// A bound on the number of tasks that a request still takes once `task`
/// is awaited, that task included.
pub open spec fn tasks_left(task: Task) -> nat {
    match task {
        Task::ReadRom => 14,
        Task::StopCore => 13,
        Task::JoinThread => 12,
        Task::ReclaimCore => 11,
        Task::LoadPlugin(Plugin::Graphics) => 10,
        Task::LoadPlugin(Plugin::Audio) => 9,
        Task::LoadPlugin(Plugin::Input) => 8,
        Task::LoadPlugin(Plugin::Rsp) => 7,
        Task::OpenRom => 6,
        Task::AttachPlugins => 5,
        Task::SpawnThread => 4,
        Task::AwaitRunning => 3,
        Task::DetachPlugins => 2,
        Task::CloseRom => 1,
        Task::InitCore => 1,
    }
}

/// The model of the engine's life.
#[derive(Clone, Copy, Debug)]
pub struct Model {
    state: State,
}

impl View for Model {
    type V = State;

    closed spec fn view(&self) -> State {
        self.state
    }
}

impl Model {
    /// Every state that a model gets into can be reached.
    #[verifier::type_invariant]
    spec fn reachable(self) -> bool {
        self.state.wf()
    }

    /// The model of an engine that has not been started, with no request
    /// being worked on.
    pub fn new() -> (model: Model)
        ensures
            model@ == (State { phase: Phase::Uninit, stage: Stage::Idle }),
    {
        Model { state: State { phase: Phase::Uninit, stage: Stage::Idle } }
    }

    /// Returns the phase.
    pub fn phase(&self) -> (phase: Phase)
        ensures
            phase == self@.phase,
    {
        self.state.phase
    }

    /// Returns the task that is awaited, if a request is being worked on.
    pub fn awaited(&self) -> (task: Option<Task>)
        ensures
            task == self@.task(),
    {
        match self.state.stage {
            Stage::Idle => None,
            Stage::Busy { task, .. } => Some(task),
        }
    }

    /// Takes a request and returns the task to perform first. Where the
    /// request breaks a rule, the model stays as it is.
    pub fn update(&mut self, request: &Request) -> (first: Result<Task, Fault>)
        ensures
            old(self)@.wf(),
            final(self)@.wf(),
            match old(self)@.on_request(flow_of(*request)) {
                Ok((state, task)) => final(self)@ == state && first == Ok::<Task, Fault>(task),
                Err(fault) => final(self)@ == old(self)@ && first == Err::<Task, Fault>(fault),
            },
    {
        proof {
            use_type_invariant(&*self);
        }
        if let Stage::Busy { .. } = self.state.stage {
            return Err(Fault::Busy);
        }
        let phase = self.state.phase;
        let (flow, first) = match request {
            Request::Init => (
                Flow::Init,
                match phase {
                    Phase::Uninit => Ok(Task::InitCore),
                    _ => Err(Fault::AlreadyInitialized),
                },
            ),
            Request::StartRom(_) => (
                Flow::Start,
                match phase {
                    Phase::Uninit => Err(Fault::NotInitialized),
                    _ => Ok(Task::ReadRom),
                },
            ),
            Request::StopRom => (
                Flow::Stop,
                match phase {
                    Phase::Running => Ok(Task::StopCore),
                    _ => Err(Fault::NotRunning),
                },
            ),
        };
        if let Ok(task) = first {
            self.state = State { phase, stage: Stage::Busy { flow, task } };
        }
        first
    }

    /// Takes the outcome of the awaited task and returns the model's
    /// answer. Where the outcome breaks a rule, the model stays as it is.
    pub fn resume(&mut self, succeeded: bool) -> (answer: Result<Turn, Fault>)
        ensures
            old(self)@.wf(),
            final(self)@.wf(),
            match old(self)@.on_outcome(succeeded) {
                Ok((state, turn)) => final(self)@ == state && answer == Ok::<Turn, Fault>(turn),
                Err(fault) => final(self)@ == old(self)@ && answer == Err::<Turn, Fault>(fault),
            },
    {
        proof {
            use_type_invariant(&*self);
        }
        let phase = self.state.phase;
        match self.state.stage {
            Stage::Idle => Err(Fault::NoTask),
            Stage::Busy { flow, task } => {
                let answer = if succeeded {
                    Ok(succeed(phase, flow, task))
                } else {
                    fail(phase, task)
                };
                if let Ok(turn) = answer {
                    let stage = match turn.next {
                        Some(next) => Stage::Busy { flow, task: next },
                        None => Stage::Idle,
                    };
                    self.state = State { phase: turn.phase, stage };
                }
                answer
            },
        }
    }
}

/// Computes [`after_success`].
pub fn succeed(phase: Phase, flow: Flow, task: Task) -> (turn: Turn)
    ensures
        turn == after_success(phase, flow, task),
{
    let stay = |next: Task| -> (turn: Turn)
        ensures
            turn == (Turn { phase, emit: None, next: Some(next) }),
        { Turn { phase, emit: None, next: Some(next) } };
    match task {
        Task::InitCore => Turn { phase: Phase::Ready, emit: Some(Update::CoreReady), next: None },
        Task::ReadRom => match phase {
            Phase::Running => stay(Task::StopCore),
            _ => stay(Task::LoadPlugin(Plugin::Graphics)),
        },
        Task::StopCore => stay(Task::JoinThread),
        Task::JoinThread => stay(Task::ReclaimCore),
        Task::ReclaimCore => {
            let next = match flow {
                Flow::Stop => Task::DetachPlugins,
                _ => Task::LoadPlugin(Plugin::Graphics),
            };
            Turn { phase: Phase::Ready, emit: None, next: Some(next) }
        },
        Task::LoadPlugin(Plugin::Graphics) => stay(Task::LoadPlugin(Plugin::Audio)),
        Task::LoadPlugin(Plugin::Audio) => stay(Task::LoadPlugin(Plugin::Input)),
        Task::LoadPlugin(Plugin::Input) => stay(Task::LoadPlugin(Plugin::Rsp)),
        Task::LoadPlugin(Plugin::Rsp) => stay(Task::OpenRom),
        Task::OpenRom => stay(Task::AttachPlugins),
        Task::AttachPlugins => stay(Task::SpawnThread),
        Task::SpawnThread => stay(Task::AwaitRunning),
        Task::AwaitRunning => Turn {
            phase: Phase::Running,
            emit: Some(Update::EmuStateChange(EmuState::Running)),
            next: None,
        },
        Task::DetachPlugins => stay(Task::CloseRom),
        Task::CloseRom => Turn { phase, emit: None, next: None },
    }
}

/// Computes [`after_failure`].
pub fn fail(phase: Phase, task: Task) -> (turn: Result<Turn, Fault>)
    ensures
        turn == after_failure(phase, task),
{
    match task {
        Task::ReadRom | Task::LoadPlugin(_) | Task::OpenRom => Ok(
            Turn { phase, emit: Some(Update::Error(task)), next: None },
        ),
        Task::AttachPlugins => Ok(
            Turn { phase, emit: Some(Update::Error(task)), next: Some(Task::CloseRom) },
        ),
        _ => Err(Fault::TaskFailed(task)),
    }
}

/// Every state that follows a reachable state can be reached.
pub proof fn law_steps_stay_reachable(state: State, flow: Flow, succeeded: bool)
    requires
        state.wf(),
    ensures
        state.on_request(flow) matches Ok((next, _)) ==> next.wf(),
        state.on_outcome(succeeded) matches Ok((next, _)) ==> next.wf(),
{
}

/// A request changes no phase. An outcome changes the phase in three cases
/// only, each on success: the engine is ready once it has been started; it
/// runs once it has reported so, and it was ready before; it is ready
/// again once the handle has been reclaimed, and it was running before.
pub proof fn law_phase_changes(state: State, flow: Flow, succeeded: bool)
    requires
        state.wf(),
    ensures
        state.on_request(flow) matches Ok((next, _)) ==> next.phase == state.phase,
        state.on_outcome(succeeded) matches Ok((next, _)) ==> {
            ||| next.phase == state.phase
            ||| succeeded && state.phase is Uninit && state.task() == Some(Task::InitCore)
                && next.phase is Ready
            ||| succeeded && state.phase is Ready && state.task() == Some(Task::AwaitRunning)
                && next.phase is Running
            ||| succeeded && state.phase is Running && state.task() == Some(Task::ReclaimCore)
                && next.phase is Ready
        },
{
}

/// An engine that has been started is never unstarted again.
pub proof fn law_started_for_good(state: State, flow: Flow, succeeded: bool)
    requires
        state.wf(),
        !(state.phase is Uninit),
    ensures
        state.on_request(flow) matches Ok((next, _)) ==> !(next.phase is Uninit),
        state.on_outcome(succeeded) matches Ok((next, _)) ==> !(next.phase is Uninit),
{
}

/// The handle is reclaimed only after the thread was joined, and the
/// thread is joined only after the engine was stopped: each of the two
/// tasks is asked for only in answer to the success of the one before. And
/// where one of the three fails, that is a fault, not a report.
pub proof fn law_stop_join_reclaim(state: State, succeeded: bool)
    requires
        state.wf(),
    ensures
        state.on_outcome(succeeded) matches Ok((_, turn)) ==> {
            &&& turn.next == Some(Task::ReclaimCore) ==> succeeded && state.task() == Some(
                Task::JoinThread,
            )
            &&& turn.next == Some(Task::JoinThread) ==> succeeded && state.task() == Some(
                Task::StopCore,
            )
        },
        state.task() matches Some(task) ==> (task is StopCore || task is JoinThread
            || task is ReclaimCore) ==> state.on_outcome(false) == Err::<(State, Turn), Fault>(
            Fault::TaskFailed(task),
        ),
{
}

/// Every request is settled after a bounded number of tasks: each answer
/// either settles it or asks for a task with fewer tasks left.
pub proof fn law_requests_settle(state: State, succeeded: bool)
    requires
        state.wf(),
    ensures
        state.on_outcome(succeeded) matches Ok((next, turn)) ==> next.task() == turn.next && (
        turn.next matches Some(task) ==> state.task() matches Some(done) && tasks_left(task)
            < tasks_left(done)),
{
}

} // verus!
