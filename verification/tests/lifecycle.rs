use std::path::PathBuf;

use m64prs_core::lifecycle::{
    fail, succeed, Fault, Flow, Model, Phase, Plugin, Request, Task, Turn, Update,
};
use m64prs_core::state::EmuState;

fn start() -> Request {
    Request::StartRom(PathBuf::from("game.z64"))
}

/// Performs tasks, each succeeding unless it is `failing`, until the request
/// is settled; returns the tasks performed and the updates emitted.
fn run(model: &mut Model, request: &Request, failing: Option<Task>) -> (Vec<Task>, Vec<Update>) {
    let mut tasks = Vec::new();
    let mut updates = Vec::new();
    let mut next = Some(model.update(request).unwrap());
    while let Some(task) = next {
        tasks.push(task);
        assert_eq!(model.awaited(), Some(task));
        let turn = model.resume(Some(task) != failing).unwrap();
        assert_eq!(model.phase(), turn.phase);
        updates.extend(turn.emit);
        next = turn.next;
    }
    assert_eq!(model.awaited(), None);
    (tasks, updates)
}

fn ready() -> Model {
    let mut model = Model::new();
    run(&mut model, &Request::Init, None);
    model
}

fn running() -> Model {
    let mut model = ready();
    run(&mut model, &start(), None);
    model
}

const LAUNCH: [Task; 8] = [
    Task::LoadPlugin(Plugin::Graphics),
    Task::LoadPlugin(Plugin::Audio),
    Task::LoadPlugin(Plugin::Input),
    Task::LoadPlugin(Plugin::Rsp),
    Task::OpenRom,
    Task::AttachPlugins,
    Task::SpawnThread,
    Task::AwaitRunning,
];

#[test]
fn new_model_is_not_started() {
    let model = Model::new();
    assert_eq!(model.phase(), Phase::Uninit);
    assert_eq!(model.awaited(), None);
}

#[test]
fn init_starts_the_engine_and_reports_it() {
    let mut model = Model::new();
    let (tasks, updates) = run(&mut model, &Request::Init, None);
    assert_eq!(tasks, vec![Task::InitCore]);
    assert_eq!(updates, vec![Update::CoreReady]);
    assert_eq!(model.phase(), Phase::Ready);
}

#[test]
fn init_twice_is_a_fault() {
    let mut model = ready();
    assert_eq!(model.update(&Request::Init), Err(Fault::AlreadyInitialized));
    assert_eq!(model.phase(), Phase::Ready);
    let mut model = running();
    assert_eq!(model.update(&Request::Init), Err(Fault::AlreadyInitialized));
    assert_eq!(model.phase(), Phase::Running);
}

#[test]
fn failed_init_is_a_fault() {
    let mut model = Model::new();
    assert_eq!(model.update(&Request::Init), Ok(Task::InitCore));
    assert_eq!(model.resume(false), Err(Fault::TaskFailed(Task::InitCore)));
    assert_eq!(model.phase(), Phase::Uninit);
    assert_eq!(model.awaited(), Some(Task::InitCore));
}

#[test]
fn start_before_init_is_a_fault() {
    let mut model = Model::new();
    assert_eq!(model.update(&start()), Err(Fault::NotInitialized));
    assert_eq!(model.awaited(), None);
}

#[test]
fn stop_while_not_running_is_a_fault() {
    let mut model = Model::new();
    assert_eq!(model.update(&Request::StopRom), Err(Fault::NotRunning));
    let mut model = ready();
    assert_eq!(model.update(&Request::StopRom), Err(Fault::NotRunning));
    assert_eq!(model.phase(), Phase::Ready);
}

#[test]
fn start_from_ready_launches_the_rom() {
    let mut model = ready();
    let (tasks, updates) = run(&mut model, &start(), None);
    let mut expected = vec![Task::ReadRom];
    expected.extend(LAUNCH);
    assert_eq!(tasks, expected);
    assert_eq!(updates, vec![Update::EmuStateChange(EmuState::Running)]);
    assert_eq!(model.phase(), Phase::Running);
}

#[test]
fn start_while_running_stops_first() {
    let mut model = running();
    let (tasks, updates) = run(&mut model, &start(), None);
    let mut expected =
        vec![Task::ReadRom, Task::StopCore, Task::JoinThread, Task::ReclaimCore];
    expected.extend(LAUNCH);
    assert_eq!(tasks, expected);
    assert_eq!(updates, vec![Update::EmuStateChange(EmuState::Running)]);
    assert_eq!(model.phase(), Phase::Running);
}

#[test]
fn stop_reclaims_the_engine_and_closes_the_rom() {
    let mut model = running();
    let (tasks, updates) = run(&mut model, &Request::StopRom, None);
    assert_eq!(
        tasks,
        vec![
            Task::StopCore,
            Task::JoinThread,
            Task::ReclaimCore,
            Task::DetachPlugins,
            Task::CloseRom,
        ]
    );
    assert_eq!(updates, vec![]);
    assert_eq!(model.phase(), Phase::Ready);
}

#[test]
fn unreadable_rom_leaves_the_phase() {
    let mut model = ready();
    let (tasks, updates) = run(&mut model, &start(), Some(Task::ReadRom));
    assert_eq!(tasks, vec![Task::ReadRom]);
    assert_eq!(updates, vec![Update::Error(Task::ReadRom)]);
    assert_eq!(model.phase(), Phase::Ready);

    let mut model = running();
    let (tasks, updates) = run(&mut model, &start(), Some(Task::ReadRom));
    assert_eq!(tasks, vec![Task::ReadRom]);
    assert_eq!(updates, vec![Update::Error(Task::ReadRom)]);
    assert_eq!(model.phase(), Phase::Running);
}

#[test]
fn each_recoverable_failure_ends_in_ready_with_a_report() {
    for (at, failing) in LAUNCH.iter().take(5).enumerate() {
        let mut model = ready();
        let (tasks, updates) = run(&mut model, &start(), Some(*failing));
        let mut expected = vec![Task::ReadRom];
        expected.extend(&LAUNCH[..=at]);
        assert_eq!(tasks, expected);
        assert_eq!(updates, vec![Update::Error(*failing)]);
        assert_eq!(model.phase(), Phase::Ready);
    }
}

#[test]
fn failed_attach_closes_the_rom_after_reporting() {
    let mut model = ready();
    assert_eq!(model.update(&start()), Ok(Task::ReadRom));
    for _ in 0..6 {
        assert_eq!(model.resume(true).unwrap().emit, None);
    }
    assert_eq!(model.awaited(), Some(Task::AttachPlugins));
    assert_eq!(
        model.resume(false),
        Ok(Turn {
            phase: Phase::Ready,
            emit: Some(Update::Error(Task::AttachPlugins)),
            next: Some(Task::CloseRom),
        })
    );
    assert_eq!(model.resume(true), Ok(Turn { phase: Phase::Ready, emit: None, next: None }));
    assert_eq!(model.phase(), Phase::Ready);
    assert_eq!(model.awaited(), None);
}

#[test]
fn failure_after_a_stop_leaves_the_engine_ready() {
    let mut model = running();
    let (_, updates) = run(&mut model, &start(), Some(Task::OpenRom));
    assert_eq!(updates, vec![Update::Error(Task::OpenRom)]);
    assert_eq!(model.phase(), Phase::Ready);
}

#[test]
fn handle_that_is_still_shared_is_a_fault() {
    let mut model = running();
    assert_eq!(model.update(&Request::StopRom), Ok(Task::StopCore));
    assert_eq!(model.resume(true).unwrap().next, Some(Task::JoinThread));
    assert_eq!(model.resume(true).unwrap().next, Some(Task::ReclaimCore));
    assert_eq!(model.resume(false), Err(Fault::TaskFailed(Task::ReclaimCore)));
    assert_eq!(model.phase(), Phase::Running);
    assert_eq!(model.awaited(), Some(Task::ReclaimCore));
}

#[test]
fn tasks_that_must_not_fail_are_faults() {
    for task in [
        Task::InitCore,
        Task::StopCore,
        Task::JoinThread,
        Task::ReclaimCore,
        Task::SpawnThread,
        Task::AwaitRunning,
        Task::DetachPlugins,
        Task::CloseRom,
    ] {
        assert_eq!(fail(Phase::Ready, task), Err(Fault::TaskFailed(task)));
    }
    for task in [Task::ReadRom, Task::LoadPlugin(Plugin::Rsp), Task::OpenRom] {
        assert_eq!(
            fail(Phase::Running, task),
            Ok(Turn { phase: Phase::Running, emit: Some(Update::Error(task)), next: None })
        );
    }
}

#[test]
fn succeed_follows_the_flow() {
    assert_eq!(
        succeed(Phase::Running, Flow::Stop, Task::ReclaimCore),
        Turn { phase: Phase::Ready, emit: None, next: Some(Task::DetachPlugins) }
    );
    assert_eq!(
        succeed(Phase::Running, Flow::Start, Task::ReclaimCore),
        Turn { phase: Phase::Ready, emit: None, next: Some(Task::LoadPlugin(Plugin::Graphics)) }
    );
    assert_eq!(
        succeed(Phase::Running, Flow::Start, Task::ReadRom),
        Turn { phase: Phase::Running, emit: None, next: Some(Task::StopCore) }
    );
    assert_eq!(
        succeed(Phase::Ready, Flow::Start, Task::ReadRom),
        Turn { phase: Phase::Ready, emit: None, next: Some(Task::LoadPlugin(Plugin::Graphics)) }
    );
}

#[test]
fn request_during_a_request_is_a_fault() {
    let mut model = ready();
    assert_eq!(model.update(&start()), Ok(Task::ReadRom));
    assert_eq!(model.update(&Request::StopRom), Err(Fault::Busy));
    assert_eq!(model.update(&Request::Init), Err(Fault::Busy));
    assert_eq!(model.awaited(), Some(Task::ReadRom));
}

#[test]
fn outcome_without_a_task_is_a_fault() {
    let mut model = ready();
    assert_eq!(model.resume(true), Err(Fault::NoTask));
    assert_eq!(model.resume(false), Err(Fault::NoTask));
    assert_eq!(model.phase(), Phase::Ready);
}

#[test]
fn running_alternates_with_ready() {
    let mut model = ready();
    for _ in 0..3 {
        run(&mut model, &start(), None);
        assert_eq!(model.phase(), Phase::Running);
        run(&mut model, &Request::StopRom, None);
        assert_eq!(model.phase(), Phase::Ready);
    }
}
