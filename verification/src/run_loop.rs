//! The life of a session: a core is bound, content is loaded, frames are
//! stepped until someone quits. Failures on the way to the first frame, and
//! an unknown pixel format at any time, end the session.

use crate::environment::EnvironmentError;
use crate::loader::LoadError;
use vstd::prelude::*;

verus! {

/// Where a session stands.
#[derive(Clone, Copy, Debug, PartialEq, Eq, Structural)]
pub enum RunState {
    /// Nothing is loaded.
    Uninitialized,
    /// The core is bound and initialised.
    ModuleLoaded,
    /// The core has accepted the content.
    ContentLoaded,
    /// Frames are being stepped.
    Running,
    /// The session is over.
    Terminated,
}

/// What ends a session with a failure.
#[derive(Clone, Copy, Debug, PartialEq, Eq, Structural)]
pub enum FatalError {
    /// The core could not be bound.
    Load(LoadError),
    /// The core refused the content.
    ContentLoadFailed,
    /// The core announced a pixel format that no tag stands for.
    UnknownPixelFormat(u32),
}

/// What happened since the last transition.
#[derive(Clone, Copy, Debug, PartialEq, Eq, Structural)]
pub enum RunEvent {
    /// Every step of binding the core succeeded.
    ModuleBound,
    /// Binding the core failed.
    ModuleFailed(LoadError),
    /// The core accepted the content.
    ContentAccepted,
    /// The core refused the content.
    ContentRefused,
    /// The first frame is about to be stepped.
    Started,
    /// The environment channel gave up.
    EnvironmentFailed(EnvironmentError),
    /// The window was closed or the quit key is down.
    QuitRequested,
}

/// The state after an event, and the failure if the event was one.
#[derive(Clone, Copy, Debug, PartialEq, Eq, Structural)]
pub struct Transition {
    /// The state from now on.
    pub state: RunState,
    /// The failure that ended the session, if one did.
    pub fatal: Option<FatalError>,
}

/// One part of stepping a frame.
#[derive(Clone, Copy, Debug, PartialEq, Eq, Structural)]
pub enum FramePhase {
    /// Write the buttons that are held down into the session.
    CollectInput,
    /// Let the core run for one frame.
    StepCore,
    /// Hand the frame's audio to the playback side.
    DrainAudio,
    /// Show the frame.
    Present,
}

/// The failure that an error of the environment channel stands for.
pub open spec fn fatal_of(error: EnvironmentError) -> FatalError {
    match error {
        EnvironmentError::UnknownPixelFormat(tag) => FatalError::UnknownPixelFormat(tag),
    }
}

/// The transition that an event causes. An event that does not belong to
/// the state changes nothing.
pub open spec fn spec_next(state: RunState, event: RunEvent) -> Transition {
    if state == RunState::Terminated {
        Transition { state: RunState::Terminated, fatal: None }
    } else {
        match event {
            RunEvent::QuitRequested => Transition { state: RunState::Terminated, fatal: None },
            RunEvent::EnvironmentFailed(error) => Transition {
                state: RunState::Terminated,
                fatal: Some(fatal_of(error)),
            },
            RunEvent::ModuleBound => Transition {
                state: if state == RunState::Uninitialized {
                    RunState::ModuleLoaded
                } else {
                    state
                },
                fatal: None,
            },
            RunEvent::ModuleFailed(error) => if state == RunState::Uninitialized {
                Transition { state: RunState::Terminated, fatal: Some(FatalError::Load(error)) }
            } else {
                Transition { state, fatal: None }
            },
            RunEvent::ContentAccepted => Transition {
                state: if state == RunState::ModuleLoaded {
                    RunState::ContentLoaded
                } else {
                    state
                },
                fatal: None,
            },
            RunEvent::ContentRefused => if state == RunState::ModuleLoaded {
                Transition {
                    state: RunState::Terminated,
                    fatal: Some(FatalError::ContentLoadFailed),
                }
            } else {
                Transition { state, fatal: None }
            },
            RunEvent::Started => Transition {
                state: if state == RunState::ContentLoaded {
                    RunState::Running
                } else {
                    state
                },
                fatal: None,
            },
        }
    }
}

/// The phase that follows a phase within one frame; presenting is the last.
pub open spec fn spec_phase_after(phase: FramePhase) -> Option<FramePhase> {
    match phase {
        FramePhase::CollectInput => Some(FramePhase::StepCore),
        FramePhase::StepCore => Some(FramePhase::DrainAudio),
        FramePhase::DrainAudio => Some(FramePhase::Present),
        FramePhase::Present => None,
    }
}

/// The transition that an event causes.
pub fn next(state: RunState, event: RunEvent) -> (transition: Transition)
    ensures
        transition == spec_next(state, event),
{
    match state {
        RunState::Terminated => Transition { state: RunState::Terminated, fatal: None },
        _ => match event {
            RunEvent::QuitRequested => Transition { state: RunState::Terminated, fatal: None },
            RunEvent::EnvironmentFailed(EnvironmentError::UnknownPixelFormat(tag)) => Transition {
                state: RunState::Terminated,
                fatal: Some(FatalError::UnknownPixelFormat(tag)),
            },
            RunEvent::ModuleBound => match state {
                RunState::Uninitialized => Transition {
                    state: RunState::ModuleLoaded,
                    fatal: None,
                },
                _ => Transition { state, fatal: None },
            },
            RunEvent::ModuleFailed(error) => match state {
                RunState::Uninitialized => Transition {
                    state: RunState::Terminated,
                    fatal: Some(FatalError::Load(error)),
                },
                _ => Transition { state, fatal: None },
            },
            RunEvent::ContentAccepted => match state {
                RunState::ModuleLoaded => Transition {
                    state: RunState::ContentLoaded,
                    fatal: None,
                },
                _ => Transition { state, fatal: None },
            },
            RunEvent::ContentRefused => match state {
                RunState::ModuleLoaded => Transition {
                    state: RunState::Terminated,
                    fatal: Some(FatalError::ContentLoadFailed),
                },
                _ => Transition { state, fatal: None },
            },
            RunEvent::Started => match state {
                RunState::ContentLoaded => Transition { state: RunState::Running, fatal: None },
                _ => Transition { state, fatal: None },
            },
        },
    }
}

/// The event that the outcome of binding a core stands for.
pub fn module_event(outcome: Result<(), LoadError>) -> (event: RunEvent)
    ensures
        event == match outcome {
            Ok(_) => RunEvent::ModuleBound,
            Err(error) => RunEvent::ModuleFailed(error),
        },
{
    match outcome {
        Ok(_) => RunEvent::ModuleBound,
        Err(error) => RunEvent::ModuleFailed(error),
    }
}

/// The event that the core's answer to the content stands for.
pub fn content_event(accepted: bool) -> (event: RunEvent)
    ensures
        event == if accepted {
            RunEvent::ContentAccepted
        } else {
            RunEvent::ContentRefused
        },
{
    if accepted {
        RunEvent::ContentAccepted
    } else {
        RunEvent::ContentRefused
    }
}

/// Whether the session is to end: the window is gone or the quit key is down.
pub fn quit_requested(window_open: bool, quit_key_down: bool) -> (quit: bool)
    ensures
        quit == (!window_open || quit_key_down),
{
    !window_open || quit_key_down
}

/// The first phase of every frame.
pub fn first_phase() -> (phase: FramePhase)
    ensures
        phase == FramePhase::CollectInput,
{
    FramePhase::CollectInput
}

/// The phase that follows a phase within one frame.
pub fn phase_after(phase: FramePhase) -> (following: Option<FramePhase>)
    ensures
        following == spec_phase_after(phase),
{
    match phase {
        FramePhase::CollectInput => Some(FramePhase::StepCore),
        FramePhase::StepCore => Some(FramePhase::DrainAudio),
        FramePhase::DrainAudio => Some(FramePhase::Present),
        FramePhase::Present => None,
    }
}

/// A core that refuses the content ends the session before a single frame is
/// stepped, and a core that cannot be bound ends it before content is loaded.
pub proof fn lemma_start_up_failures_are_fatal(error: LoadError)
    ensures
        spec_next(RunState::ModuleLoaded, RunEvent::ContentRefused) == (Transition {
            state: RunState::Terminated,
            fatal: Some(FatalError::ContentLoadFailed),
        }),
        spec_next(RunState::Uninitialized, RunEvent::ModuleFailed(error)) == (Transition {
            state: RunState::Terminated,
            fatal: Some(FatalError::Load(error)),
        }),
{
}

/// A session that is over stays over, and a failure always ends the session.
pub proof fn lemma_failures_terminate(state: RunState, event: RunEvent)
    ensures
        state == RunState::Terminated ==> spec_next(state, event).state == RunState::Terminated,
        spec_next(state, event).fatal is Some ==> spec_next(state, event).state
            == RunState::Terminated,
{
}

/// An unknown pixel format ends any session that is not over yet, and is
/// reported as such with the tag that the core announced.
pub proof fn lemma_unknown_pixel_format_is_fatal(state: RunState, tag: u32)
    requires
        state != RunState::Terminated,
    ensures
        spec_next(
            state,
            RunEvent::EnvironmentFailed(EnvironmentError::UnknownPixelFormat(tag)),
        ) == (Transition {
            state: RunState::Terminated,
            fatal: Some(FatalError::UnknownPixelFormat(tag)),
        }),
{
}

/// Frames are stepped only after the core was bound and content was loaded:
/// the one way into `Running` leads from `ContentLoaded`, the one way into
/// `ContentLoaded` from `ModuleLoaded`, and the one way into `ModuleLoaded`
/// from `Uninitialized`.
pub proof fn lemma_states_are_entered_in_order(state: RunState, event: RunEvent)
    requires
        spec_next(state, event).state != state,
    ensures
        spec_next(state, event).state == RunState::Running ==> state == RunState::ContentLoaded
            && event == RunEvent::Started,
        spec_next(state, event).state == RunState::ContentLoaded ==> state
            == RunState::ModuleLoaded && event == RunEvent::ContentAccepted,
        spec_next(state, event).state == RunState::ModuleLoaded ==> state
            == RunState::Uninitialized && event == RunEvent::ModuleBound,
        spec_next(state, event).state != RunState::Uninitialized,
{
}

} // verus!
