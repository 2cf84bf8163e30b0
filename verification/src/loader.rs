//! Binding of a core: the entry points that a core must export, the order
//! in which they are resolved, the version check, and the order in which the
//! host registers its callbacks before it initialises the core. The caller
//! opens the module and performs each step; the sequence is decided here.

use vstd::prelude::*;

verus! {

/// The one interface version that the host works with.
pub const EXPECTED_LIB_RETRO_VERSION: u32 = 1;

/// The number of entry points that a core must export.
pub const SYMBOL_COUNT: usize = 25;

/// The position of the version check in the load sequence.
pub const VERSION_CHECK_POSITION: usize = 25;

/// The position of the first registration in the load sequence.
pub const FIRST_REGISTRATION_POSITION: usize = 26;

/// The position of the core's initialisation in the load sequence.
pub const INIT_POSITION: usize = 32;

/// An entry point that a core must export.
#[derive(Clone, Copy, Debug, PartialEq, Eq, Structural)]
pub enum CoreSymbol {
    /// Registers the environment callback.
    SetEnvironment,
    /// Registers the video-refresh callback.
    SetVideoRefresh,
    /// Registers the single-frame audio callback.
    SetAudioSample,
    /// Registers the batch audio callback.
    SetAudioSampleBatch,
    /// Registers the input-poll callback.
    SetInputPoll,
    /// Registers the input-state callback.
    SetInputState,
    /// Initialises the core.
    Init,
    /// Shuts the core down.
    Deinit,
    /// Reports the interface version that the core was built for.
    ApiVersion,
    /// Describes the core.
    GetSystemInfo,
    /// Describes the core's video and audio output.
    GetSystemAvInfo,
    /// Assigns a device to a controller port.
    SetControllerPortDevice,
    /// Resets the emulated machine.
    Reset,
    /// Runs the core for one frame.
    Run,
    /// Reports the size of a saved state.
    SerializeSize,
    /// Saves the machine's state.
    Serialize,
    /// Restores the machine's state.
    Unserialize,
    /// Removes all cheats.
    CheatReset,
    /// Sets one cheat.
    CheatSet,
    /// Loads content.
    LoadGame,
    /// Loads content of a special kind.
    LoadGameSpecial,
    /// Unloads the content.
    UnloadGame,
    /// Reports the content's region.
    GetRegion,
    /// Gives access to a region of the machine's memory.
    GetMemoryData,
    /// Reports the size of a region of the machine's memory.
    GetMemorySize,
}

/// A callback that the host registers with the core.
#[derive(Clone, Copy, Debug, PartialEq, Eq, Structural)]
pub enum Callback {
    /// Answers the core's questions and takes its settings.
    Environment,
    /// Takes a frame.
    VideoRefresh,
    /// Takes one stereo sample.
    AudioSample,
    /// Takes a batch of stereo samples.
    AudioSampleBatch,
    /// Marks the moment at which input is sampled.
    InputPoll,
    /// Reports one button.
    InputState,
}

/// One step of loading a core.
#[derive(Clone, Copy, Debug, PartialEq, Eq, Structural)]
pub enum LoadStep {
    /// Look up an entry point in the opened module.
    Resolve(CoreSymbol),
    /// Ask the core for its interface version and check it.
    CheckVersion,
    /// Hand one of the host's callbacks to the core.
    Register(Callback),
    /// Initialise the core.
    Init,
    /// Nothing is left to do: the core is bound.
    Done,
}

/// Why a core could not be bound. Either ends the start-up.
#[derive(Clone, Copy, Debug, PartialEq, Eq, Structural)]
pub enum LoadError {
    /// The module does not export a required entry point.
    MissingSymbol(CoreSymbol),
    /// The core was built for another interface version.
    VersionMismatch { expected: u32, actual: u32 },
}

/// The entry point resolved at a position of the load sequence.
pub open spec fn spec_symbol_at(index: int) -> Option<CoreSymbol> {
    if index == 0 {
        Some(CoreSymbol::SetEnvironment)
    } else if index == 1 {
        Some(CoreSymbol::SetVideoRefresh)
    } else if index == 2 {
        Some(CoreSymbol::SetAudioSample)
    } else if index == 3 {
        Some(CoreSymbol::SetAudioSampleBatch)
    } else if index == 4 {
        Some(CoreSymbol::SetInputPoll)
    } else if index == 5 {
        Some(CoreSymbol::SetInputState)
    } else if index == 6 {
        Some(CoreSymbol::Init)
    } else if index == 7 {
        Some(CoreSymbol::Deinit)
    } else if index == 8 {
        Some(CoreSymbol::ApiVersion)
    } else if index == 9 {
        Some(CoreSymbol::GetSystemInfo)
    } else if index == 10 {
        Some(CoreSymbol::GetSystemAvInfo)
    } else if index == 11 {
        Some(CoreSymbol::SetControllerPortDevice)
    } else if index == 12 {
        Some(CoreSymbol::Reset)
    } else if index == 13 {
        Some(CoreSymbol::Run)
    } else if index == 14 {
        Some(CoreSymbol::SerializeSize)
    } else if index == 15 {
        Some(CoreSymbol::Serialize)
    } else if index == 16 {
        Some(CoreSymbol::Unserialize)
    } else if index == 17 {
        Some(CoreSymbol::CheatReset)
    } else if index == 18 {
        Some(CoreSymbol::CheatSet)
    } else if index == 19 {
        Some(CoreSymbol::LoadGame)
    } else if index == 20 {
        Some(CoreSymbol::LoadGameSpecial)
    } else if index == 21 {
        Some(CoreSymbol::UnloadGame)
    } else if index == 22 {
        Some(CoreSymbol::GetRegion)
    } else if index == 23 {
        Some(CoreSymbol::GetMemoryData)
    } else if index == 24 {
        Some(CoreSymbol::GetMemorySize)
    } else {
        None
    }
}

/// The position at which an entry point is resolved.
pub open spec fn spec_symbol_index(symbol: CoreSymbol) -> int {
    match symbol {
        CoreSymbol::SetEnvironment => 0,
        CoreSymbol::SetVideoRefresh => 1,
        CoreSymbol::SetAudioSample => 2,
        CoreSymbol::SetAudioSampleBatch => 3,
        CoreSymbol::SetInputPoll => 4,
        CoreSymbol::SetInputState => 5,
        CoreSymbol::Init => 6,
        CoreSymbol::Deinit => 7,
        CoreSymbol::ApiVersion => 8,
        CoreSymbol::GetSystemInfo => 9,
        CoreSymbol::GetSystemAvInfo => 10,
        CoreSymbol::SetControllerPortDevice => 11,
        CoreSymbol::Reset => 12,
        CoreSymbol::Run => 13,
        CoreSymbol::SerializeSize => 14,
        CoreSymbol::Serialize => 15,
        CoreSymbol::Unserialize => 16,
        CoreSymbol::CheatReset => 17,
        CoreSymbol::CheatSet => 18,
        CoreSymbol::LoadGame => 19,
        CoreSymbol::LoadGameSpecial => 20,
        CoreSymbol::UnloadGame => 21,
        CoreSymbol::GetRegion => 22,
        CoreSymbol::GetMemoryData => 23,
        CoreSymbol::GetMemorySize => 24,
    }
}

/// The name under which a core exports an entry point.
pub open spec fn spec_symbol_name(symbol: CoreSymbol) -> Seq<char> {
    match symbol {
        CoreSymbol::SetEnvironment => "retro_set_environment"@,
        CoreSymbol::SetVideoRefresh => "retro_set_video_refresh"@,
        CoreSymbol::SetAudioSample => "retro_set_audio_sample"@,
        CoreSymbol::SetAudioSampleBatch => "retro_set_audio_sample_batch"@,
        CoreSymbol::SetInputPoll => "retro_set_input_poll"@,
        CoreSymbol::SetInputState => "retro_set_input_state"@,
        CoreSymbol::Init => "retro_init"@,
        CoreSymbol::Deinit => "retro_deinit"@,
        CoreSymbol::ApiVersion => "retro_api_version"@,
        CoreSymbol::GetSystemInfo => "retro_get_system_info"@,
        CoreSymbol::GetSystemAvInfo => "retro_get_system_av_info"@,
        CoreSymbol::SetControllerPortDevice => "retro_set_controller_port_device"@,
        CoreSymbol::Reset => "retro_reset"@,
        CoreSymbol::Run => "retro_run"@,
        CoreSymbol::SerializeSize => "retro_serialize_size"@,
        CoreSymbol::Serialize => "retro_serialize"@,
        CoreSymbol::Unserialize => "retro_unserialize"@,
        CoreSymbol::CheatReset => "retro_cheat_reset"@,
        CoreSymbol::CheatSet => "retro_cheat_set"@,
        CoreSymbol::LoadGame => "retro_load_game"@,
        CoreSymbol::LoadGameSpecial => "retro_load_game_special"@,
        CoreSymbol::UnloadGame => "retro_unload_game"@,
        CoreSymbol::GetRegion => "retro_get_region"@,
        CoreSymbol::GetMemoryData => "retro_get_memory_data"@,
        CoreSymbol::GetMemorySize => "retro_get_memory_size"@,
    }
}

/// The callback registered at a position counted from the first registration.
pub open spec fn spec_callback_at(index: int) -> Option<Callback> {
    if index == 0 {
        Some(Callback::Environment)
    } else if index == 1 {
        Some(Callback::VideoRefresh)
    } else if index == 2 {
        Some(Callback::AudioSample)
    } else if index == 3 {
        Some(Callback::AudioSampleBatch)
    } else if index == 4 {
        Some(Callback::InputPoll)
    } else if index == 5 {
        Some(Callback::InputState)
    } else {
        None
    }
}

/// The entry point through which a callback is registered.
pub open spec fn spec_registrar(callback: Callback) -> CoreSymbol {
    match callback {
        Callback::Environment => CoreSymbol::SetEnvironment,
        Callback::VideoRefresh => CoreSymbol::SetVideoRefresh,
        Callback::AudioSample => CoreSymbol::SetAudioSample,
        Callback::AudioSampleBatch => CoreSymbol::SetAudioSampleBatch,
        Callback::InputPoll => CoreSymbol::SetInputPoll,
        Callback::InputState => CoreSymbol::SetInputState,
    }
}

/// The step at a position of the load sequence: every entry point is
/// resolved first, then the version is checked, then the six callbacks are
/// registered, then the core is initialised.
pub open spec fn spec_load_step(position: int) -> LoadStep {
    if 0 <= position < 25 {
        LoadStep::Resolve(spec_symbol_at(position)->0)
    } else if position == 25 {
        LoadStep::CheckVersion
    } else if 26 <= position < 32 {
        LoadStep::Register(spec_callback_at(position - 26)->0)
    } else if position == 32 {
        LoadStep::Init
    } else {
        LoadStep::Done
    }
}

impl CoreSymbol {
    /// The name under which a core exports this entry point.
    pub fn name(self) -> (name: &'static str)
        ensures
            name@ == spec_symbol_name(self),
    {
        match self {
            CoreSymbol::SetEnvironment => "retro_set_environment",
            CoreSymbol::SetVideoRefresh => "retro_set_video_refresh",
            CoreSymbol::SetAudioSample => "retro_set_audio_sample",
            CoreSymbol::SetAudioSampleBatch => "retro_set_audio_sample_batch",
            CoreSymbol::SetInputPoll => "retro_set_input_poll",
            CoreSymbol::SetInputState => "retro_set_input_state",
            CoreSymbol::Init => "retro_init",
            CoreSymbol::Deinit => "retro_deinit",
            CoreSymbol::ApiVersion => "retro_api_version",
            CoreSymbol::GetSystemInfo => "retro_get_system_info",
            CoreSymbol::GetSystemAvInfo => "retro_get_system_av_info",
            CoreSymbol::SetControllerPortDevice => "retro_set_controller_port_device",
            CoreSymbol::Reset => "retro_reset",
            CoreSymbol::Run => "retro_run",
            CoreSymbol::SerializeSize => "retro_serialize_size",
            CoreSymbol::Serialize => "retro_serialize",
            CoreSymbol::Unserialize => "retro_unserialize",
            CoreSymbol::CheatReset => "retro_cheat_reset",
            CoreSymbol::CheatSet => "retro_cheat_set",
            CoreSymbol::LoadGame => "retro_load_game",
            CoreSymbol::LoadGameSpecial => "retro_load_game_special",
            CoreSymbol::UnloadGame => "retro_unload_game",
            CoreSymbol::GetRegion => "retro_get_region",
            CoreSymbol::GetMemoryData => "retro_get_memory_data",
            CoreSymbol::GetMemorySize => "retro_get_memory_size",
        }
    }

    /// The position at which this entry point is resolved.
    pub fn index(self) -> (index: usize)
        ensures
            index == spec_symbol_index(self),
            index < SYMBOL_COUNT,
            spec_symbol_at(index as int) == Some(self),
    {
        match self {
            CoreSymbol::SetEnvironment => 0,
            CoreSymbol::SetVideoRefresh => 1,
            CoreSymbol::SetAudioSample => 2,
            CoreSymbol::SetAudioSampleBatch => 3,
            CoreSymbol::SetInputPoll => 4,
            CoreSymbol::SetInputState => 5,
            CoreSymbol::Init => 6,
            CoreSymbol::Deinit => 7,
            CoreSymbol::ApiVersion => 8,
            CoreSymbol::GetSystemInfo => 9,
            CoreSymbol::GetSystemAvInfo => 10,
            CoreSymbol::SetControllerPortDevice => 11,
            CoreSymbol::Reset => 12,
            CoreSymbol::Run => 13,
            CoreSymbol::SerializeSize => 14,
            CoreSymbol::Serialize => 15,
            CoreSymbol::Unserialize => 16,
            CoreSymbol::CheatReset => 17,
            CoreSymbol::CheatSet => 18,
            CoreSymbol::LoadGame => 19,
            CoreSymbol::LoadGameSpecial => 20,
            CoreSymbol::UnloadGame => 21,
            CoreSymbol::GetRegion => 22,
            CoreSymbol::GetMemoryData => 23,
            CoreSymbol::GetMemorySize => 24,
        }
    }
}

impl Callback {
    /// The entry point through which this callback is registered.
    pub fn registrar(self) -> (symbol: CoreSymbol)
        ensures
            symbol == spec_registrar(self),
    {
        match self {
            Callback::Environment => CoreSymbol::SetEnvironment,
            Callback::VideoRefresh => CoreSymbol::SetVideoRefresh,
            Callback::AudioSample => CoreSymbol::SetAudioSample,
            Callback::AudioSampleBatch => CoreSymbol::SetAudioSampleBatch,
            Callback::InputPoll => CoreSymbol::SetInputPoll,
            Callback::InputState => CoreSymbol::SetInputState,
        }
    }
}

/// The entry point resolved at a position, or nothing from position 25 on.
pub fn symbol_at(index: usize) -> (symbol: Option<CoreSymbol>)
    ensures
        symbol == spec_symbol_at(index as int),
        symbol is Some <==> index < SYMBOL_COUNT,
{
    if index == 0 {
        Some(CoreSymbol::SetEnvironment)
    } else if index == 1 {
        Some(CoreSymbol::SetVideoRefresh)
    } else if index == 2 {
        Some(CoreSymbol::SetAudioSample)
    } else if index == 3 {
        Some(CoreSymbol::SetAudioSampleBatch)
    } else if index == 4 {
        Some(CoreSymbol::SetInputPoll)
    } else if index == 5 {
        Some(CoreSymbol::SetInputState)
    } else if index == 6 {
        Some(CoreSymbol::Init)
    } else if index == 7 {
        Some(CoreSymbol::Deinit)
    } else if index == 8 {
        Some(CoreSymbol::ApiVersion)
    } else if index == 9 {
        Some(CoreSymbol::GetSystemInfo)
    } else if index == 10 {
        Some(CoreSymbol::GetSystemAvInfo)
    } else if index == 11 {
        Some(CoreSymbol::SetControllerPortDevice)
    } else if index == 12 {
        Some(CoreSymbol::Reset)
    } else if index == 13 {
        Some(CoreSymbol::Run)
    } else if index == 14 {
        Some(CoreSymbol::SerializeSize)
    } else if index == 15 {
        Some(CoreSymbol::Serialize)
    } else if index == 16 {
        Some(CoreSymbol::Unserialize)
    } else if index == 17 {
        Some(CoreSymbol::CheatReset)
    } else if index == 18 {
        Some(CoreSymbol::CheatSet)
    } else if index == 19 {
        Some(CoreSymbol::LoadGame)
    } else if index == 20 {
        Some(CoreSymbol::LoadGameSpecial)
    } else if index == 21 {
        Some(CoreSymbol::UnloadGame)
    } else if index == 22 {
        Some(CoreSymbol::GetRegion)
    } else if index == 23 {
        Some(CoreSymbol::GetMemoryData)
    } else if index == 24 {
        Some(CoreSymbol::GetMemorySize)
    } else {
        None
    }
}

/// The callback registered at a position counted from the first
/// registration, or nothing from position 6 on.
pub fn callback_at(index: usize) -> (callback: Option<Callback>)
    ensures
        callback == spec_callback_at(index as int),
        callback is Some <==> index < 6,
{
    if index == 0 {
        Some(Callback::Environment)
    } else if index == 1 {
        Some(Callback::VideoRefresh)
    } else if index == 2 {
        Some(Callback::AudioSample)
    } else if index == 3 {
        Some(Callback::AudioSampleBatch)
    } else if index == 4 {
        Some(Callback::InputPoll)
    } else if index == 5 {
        Some(Callback::InputState)
    } else {
        None
    }
}

/// The step to perform at a position of the load sequence.
pub fn load_step(position: usize) -> (step: LoadStep)
    ensures
        step == spec_load_step(position as int),
{
    if position < SYMBOL_COUNT {
        match symbol_at(position) {
            Some(symbol) => LoadStep::Resolve(symbol),
            None => LoadStep::Done,
        }
    } else if position == VERSION_CHECK_POSITION {
        LoadStep::CheckVersion
    } else if position < INIT_POSITION {
        match callback_at(position - FIRST_REGISTRATION_POSITION) {
            Some(callback) => LoadStep::Register(callback),
            None => LoadStep::Done,
        }
    } else if position == INIT_POSITION {
        LoadStep::Init
    } else {
        LoadStep::Done
    }
}

/// Judges the version that a core reports: only version 1 is accepted.
pub fn check_api_version(actual: u32) -> (result: Result<(), LoadError>)
    ensures
        actual == EXPECTED_LIB_RETRO_VERSION ==> result == Ok::<(), LoadError>(()),
        actual != EXPECTED_LIB_RETRO_VERSION ==> result == Err::<(), LoadError>(
            LoadError::VersionMismatch { expected: EXPECTED_LIB_RETRO_VERSION, actual },
        ),
{
    if actual == EXPECTED_LIB_RETRO_VERSION {
        Ok(())
    } else {
        Err(LoadError::VersionMismatch { expected: EXPECTED_LIB_RETRO_VERSION, actual })
    }
}

/// What became of the step that was last asked for.
#[derive(Clone, Copy, Debug, PartialEq, Eq, Structural)]
pub enum StepOutcome {
    /// The module exports the entry point.
    Found,
    /// The module does not export the entry point.
    Missing,
    /// The core reports this interface version.
    Version(u32),
    /// The callback was registered, or the core was initialised.
    Completed,
}

/// How far the loading of a core has come.
#[derive(Clone, Copy, Debug, PartialEq, Eq, Structural)]
pub struct LoadSequence {
    /// The position of the step to perform next.
    pub position: usize,
    /// The failure that ended the loading, if one did.
    pub error: Option<LoadError>,
}

/// The failure that an outcome means for a step, if it means one.
pub open spec fn failure_of(step: LoadStep, outcome: StepOutcome) -> Option<LoadError> {
    match (step, outcome) {
        (LoadStep::Resolve(symbol), StepOutcome::Missing) => Some(LoadError::MissingSymbol(symbol)),
        (LoadStep::CheckVersion, StepOutcome::Version(actual)) => if actual
            == EXPECTED_LIB_RETRO_VERSION {
            None
        } else {
            Some(LoadError::VersionMismatch { expected: EXPECTED_LIB_RETRO_VERSION, actual })
        },
        _ => None,
    }
}

/// Whether an outcome is the success of a step.
pub open spec fn completes(step: LoadStep, outcome: StepOutcome) -> bool {
    match (step, outcome) {
        (LoadStep::Resolve(_), StepOutcome::Found) => true,
        (LoadStep::CheckVersion, StepOutcome::Version(actual)) => actual
            == EXPECTED_LIB_RETRO_VERSION,
        (LoadStep::Register(_), StepOutcome::Completed) => true,
        (LoadStep::Init, StepOutcome::Completed) => true,
        _ => false,
    }
}

impl LoadSequence {
    /// The step to perform next; none once the loading has failed or ended.
    pub open spec fn spec_step(&self) -> LoadStep {
        if self.error is Some {
            LoadStep::Done
        } else {
            spec_load_step(self.position as int)
        }
    }

    /// Whether the core is bound: every step was performed and none failed.
    pub open spec fn spec_is_bound(&self) -> bool {
        self.error is None && self.position > INIT_POSITION
    }

    /// The sequence after an outcome was reported. The success of the step
    /// that was asked for leads to the next step, its failure ends the
    /// loading, and an outcome that does not belong to the step is ignored.
    pub open spec fn spec_after(&self, outcome: StepOutcome) -> LoadSequence {
        let step = self.spec_step();
        if failure_of(step, outcome) is Some {
            LoadSequence { position: self.position, error: failure_of(step, outcome) }
        } else if completes(step, outcome) {
            LoadSequence { position: (self.position + 1) as usize, error: None }
        } else {
            *self
        }
    }

    /// The state after a series of outcomes, reported one after the other.
    pub open spec fn spec_after_all(&self, outcomes: Seq<StepOutcome>) -> LoadSequence
        decreases outcomes.len(),
    {
        if outcomes.len() == 0 {
            *self
        } else {
            self.spec_after_all(outcomes.drop_last()).spec_after(outcomes.last())
        }
    }

    /// The start of a load sequence.
    pub fn new() -> (sequence: LoadSequence)
        ensures
            sequence == (LoadSequence { position: 0, error: None }),
            sequence.spec_step() == LoadStep::Resolve(CoreSymbol::SetEnvironment),
    {
        LoadSequence { position: 0, error: None }
    }

    /// The step to perform next.
    pub fn step(&self) -> (step: LoadStep)
        ensures
            step == self.spec_step(),
    {
        match self.error {
            Some(_) => LoadStep::Done,
            None => load_step(self.position),
        }
    }

    /// Whether the core is bound and its entry points may be used.
    pub fn is_bound(&self) -> (bound: bool)
        ensures
            bound == self.spec_is_bound(),
    {
        self.error.is_none() && self.position > INIT_POSITION
    }

    /// Takes the outcome of the step that `step` asked for. The result is the
    /// failure that ended the loading, now or before, if there is one.
    pub fn report(&mut self, outcome: StepOutcome) -> (result: Result<(), LoadError>)
        ensures
            *final(self) == old(self).spec_after(outcome),
            match result {
                Ok(_) => final(self).error is None,
                Err(error) => final(self).error == Some(error),
            },
    {
        match self.step() {
            LoadStep::Resolve(symbol) => match outcome {
                StepOutcome::Found => {
                    self.position = self.position + 1;
                },
                StepOutcome::Missing => {
                    self.error = Some(LoadError::MissingSymbol(symbol));
                },
                _ => {},
            },
            LoadStep::CheckVersion => match outcome {
                StepOutcome::Version(actual) => match check_api_version(actual) {
                    Ok(_) => {
                        self.position = self.position + 1;
                    },
                    Err(error) => {
                        self.error = Some(error);
                    },
                },
                _ => {},
            },
            LoadStep::Register(_) => match outcome {
                StepOutcome::Completed => {
                    self.position = self.position + 1;
                },
                _ => {},
            },
            LoadStep::Init => match outcome {
                StepOutcome::Completed => {
                    self.position = self.position + 1;
                },
                _ => {},
            },
            LoadStep::Done => {},
        }
        match self.error {
            Some(error) => Err(error),
            None => Ok(()),
        }
    }
}

/// A failure is final: once an entry point was missing or the version was
/// wrong, no outcome whatever makes the core bound, and no further step is
/// asked for.
pub proof fn lemma_failure_is_final(sequence: LoadSequence, outcomes: Seq<StepOutcome>)
    requires
        sequence.error is Some,
    ensures
        sequence.spec_after_all(outcomes) == sequence,
        !sequence.spec_after_all(outcomes).spec_is_bound(),
        sequence.spec_after_all(outcomes).spec_step() == LoadStep::Done,
    decreases outcomes.len(),
{
    if outcomes.len() > 0 {
        lemma_failure_is_final(sequence, outcomes.drop_last());
    }
}

/// No outcome skips a step: a report moves the sequence on by one position
/// at most, and only as the success of the very step that was asked for.
pub proof fn lemma_no_step_is_skipped(sequence: LoadSequence, outcome: StepOutcome)
    requires
        sequence.position <= INIT_POSITION,
    ensures
        sequence.spec_after(outcome).position == sequence.position || (
        sequence.spec_after(outcome).position == sequence.position + 1 && completes(
            sequence.spec_step(),
            outcome,
        )),
{
}

/// A core is bound only after at least as many outcomes as there are steps:
/// fewer than 33 reports never bind a core.
pub proof fn lemma_binding_takes_every_step(outcomes: Seq<StepOutcome>)
    ensures
        (LoadSequence { position: 0, error: None }).spec_after_all(outcomes).position
            <= outcomes.len(),
        outcomes.len() <= INIT_POSITION ==> !(LoadSequence {
            position: 0,
            error: None,
        }).spec_after_all(outcomes).spec_is_bound(),
    decreases outcomes.len(),
{
    if outcomes.len() > 0 {
        lemma_binding_takes_every_step(outcomes.drop_last());
    }
}

/// Every required entry point is resolved exactly once, and before anything
/// else happens: a symbol's position is below that of the version check, it
/// is the only position at which the symbol is resolved, and every position
/// below the version check resolves a symbol.
pub proof fn lemma_every_symbol_is_resolved_once(symbol: CoreSymbol, position: int)
    ensures
        0 <= spec_symbol_index(symbol) < 25,
        spec_load_step(spec_symbol_index(symbol)) == LoadStep::Resolve(symbol),
        spec_load_step(position) == LoadStep::Resolve(symbol) ==> position == spec_symbol_index(
            symbol,
        ),
        0 <= position < 25 ==> spec_load_step(position) is Resolve,
{
}

/// The callbacks are registered in the order environment, video refresh,
/// audio sample, audio sample batch, input poll, input state; all of that
/// comes after the version check, and the core is initialised directly
/// after the last registration.
pub proof fn lemma_registration_order()
    ensures
        spec_load_step(25) == LoadStep::CheckVersion,
        spec_load_step(26) == LoadStep::Register(Callback::Environment),
        spec_load_step(27) == LoadStep::Register(Callback::VideoRefresh),
        spec_load_step(28) == LoadStep::Register(Callback::AudioSample),
        spec_load_step(29) == LoadStep::Register(Callback::AudioSampleBatch),
        spec_load_step(30) == LoadStep::Register(Callback::InputPoll),
        spec_load_step(31) == LoadStep::Register(Callback::InputState),
        spec_load_step(32) == LoadStep::Init,
        forall|position: int| position > 32 ==> spec_load_step(position) == LoadStep::Done,
{
}

} // verus!
