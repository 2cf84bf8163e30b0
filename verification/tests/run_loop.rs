use rustroarch::environment::EnvironmentError;
use rustroarch::loader::{CoreSymbol, LoadError};
use rustroarch::run_loop::{
    content_event, first_phase, module_event, next, phase_after, quit_requested, FatalError,
    FramePhase, RunEvent, RunState, Transition,
};

const STATES: [RunState; 5] = [
    RunState::Uninitialized,
    RunState::ModuleLoaded,
    RunState::ContentLoaded,
    RunState::Running,
    RunState::Terminated,
];

fn events() -> Vec<RunEvent> {
    vec![
        RunEvent::ModuleBound,
        RunEvent::ModuleFailed(LoadError::MissingSymbol(CoreSymbol::Run)),
        RunEvent::ContentAccepted,
        RunEvent::ContentRefused,
        RunEvent::Started,
        RunEvent::EnvironmentFailed(EnvironmentError::UnknownPixelFormat(9)),
        RunEvent::QuitRequested,
    ]
}

fn to(state: RunState) -> Transition {
    Transition { state, fatal: None }
}

#[test]
fn the_way_to_running() {
    let t = next(RunState::Uninitialized, RunEvent::ModuleBound);
    assert_eq!(t, to(RunState::ModuleLoaded));
    let t = next(t.state, RunEvent::ContentAccepted);
    assert_eq!(t, to(RunState::ContentLoaded));
    let t = next(t.state, RunEvent::Started);
    assert_eq!(t, to(RunState::Running));
    let t = next(t.state, RunEvent::QuitRequested);
    assert_eq!(t, to(RunState::Terminated));
}

#[test]
fn load_failure_is_fatal() {
    let error = LoadError::VersionMismatch { expected: 1, actual: 2 };
    assert_eq!(
        next(RunState::Uninitialized, RunEvent::ModuleFailed(error)),
        Transition { state: RunState::Terminated, fatal: Some(FatalError::Load(error)) }
    );
    let error = LoadError::MissingSymbol(CoreSymbol::Init);
    assert_eq!(
        next(RunState::Uninitialized, module_event(Err(error))),
        Transition { state: RunState::Terminated, fatal: Some(FatalError::Load(error)) }
    );
    assert_eq!(module_event(Ok(())), RunEvent::ModuleBound);
}

#[test]
fn refused_content_is_fatal() {
    assert_eq!(content_event(true), RunEvent::ContentAccepted);
    assert_eq!(content_event(false), RunEvent::ContentRefused);
    assert_eq!(
        next(RunState::ModuleLoaded, content_event(false)),
        Transition { state: RunState::Terminated, fatal: Some(FatalError::ContentLoadFailed) }
    );
}

#[test]
fn unknown_pixel_format_is_fatal_in_every_live_state() {
    for state in STATES {
        let t = next(state, RunEvent::EnvironmentFailed(EnvironmentError::UnknownPixelFormat(5)));
        assert_eq!(t.state, RunState::Terminated);
        if state == RunState::Terminated {
            assert_eq!(t.fatal, None);
        } else {
            assert_eq!(t.fatal, Some(FatalError::UnknownPixelFormat(5)));
        }
    }
}

#[test]
fn terminated_stays_terminated() {
    for event in events() {
        assert_eq!(next(RunState::Terminated, event), to(RunState::Terminated));
    }
}

#[test]
fn events_out_of_turn_change_nothing() {
    assert_eq!(next(RunState::Uninitialized, RunEvent::ContentAccepted), to(RunState::Uninitialized));
    assert_eq!(next(RunState::Uninitialized, RunEvent::ContentRefused), to(RunState::Uninitialized));
    assert_eq!(next(RunState::Uninitialized, RunEvent::Started), to(RunState::Uninitialized));
    assert_eq!(next(RunState::ModuleLoaded, RunEvent::ModuleBound), to(RunState::ModuleLoaded));
    assert_eq!(next(RunState::ModuleLoaded, RunEvent::Started), to(RunState::ModuleLoaded));
    assert_eq!(next(RunState::Running, RunEvent::ContentRefused), to(RunState::Running));
    assert_eq!(
        next(RunState::Running, RunEvent::ModuleFailed(LoadError::MissingSymbol(CoreSymbol::Run))),
        to(RunState::Running)
    );
    assert_eq!(next(RunState::ContentLoaded, RunEvent::ContentAccepted), to(RunState::ContentLoaded));
}

#[test]
fn a_failure_always_terminates() {
    for state in STATES {
        for event in events() {
            let t = next(state, event);
            if t.fatal.is_some() {
                assert_eq!(t.state, RunState::Terminated);
            }
        }
    }
}

#[test]
fn quit_when_window_closed_or_key_down() {
    assert!(!quit_requested(true, false));
    assert!(quit_requested(true, true));
    assert!(quit_requested(false, false));
    assert!(quit_requested(false, true));
}

#[test]
fn phases_of_a_frame() {
    assert_eq!(first_phase(), FramePhase::CollectInput);
    assert_eq!(phase_after(FramePhase::CollectInput), Some(FramePhase::StepCore));
    assert_eq!(phase_after(FramePhase::StepCore), Some(FramePhase::DrainAudio));
    assert_eq!(phase_after(FramePhase::DrainAudio), Some(FramePhase::Present));
    assert_eq!(phase_after(FramePhase::Present), None);
}
