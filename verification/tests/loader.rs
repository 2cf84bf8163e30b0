use rustroarch::loader::{
    callback_at, check_api_version, load_step, symbol_at, Callback, CoreSymbol,
    LoadSequence, StepOutcome,
    LoadError, LoadStep, EXPECTED_LIB_RETRO_VERSION, INIT_POSITION, SYMBOL_COUNT,
    VERSION_CHECK_POSITION,
};

const NAMES: [&str; 25] = [
    "retro_set_environment",
    "retro_set_video_refresh",
    "retro_set_audio_sample",
    "retro_set_audio_sample_batch",
    "retro_set_input_poll",
    "retro_set_input_state",
    "retro_init",
    "retro_deinit",
    "retro_api_version",
    "retro_get_system_info",
    "retro_get_system_av_info",
    "retro_set_controller_port_device",
    "retro_reset",
    "retro_run",
    "retro_serialize_size",
    "retro_serialize",
    "retro_unserialize",
    "retro_cheat_reset",
    "retro_cheat_set",
    "retro_load_game",
    "retro_load_game_special",
    "retro_unload_game",
    "retro_get_region",
    "retro_get_memory_data",
    "retro_get_memory_size",
];

#[test]
fn every_entry_point_is_resolved_in_order() {
    assert_eq!(SYMBOL_COUNT, 25);
    for (i, name) in NAMES.iter().enumerate() {
        let symbol = symbol_at(i).unwrap();
        assert_eq!(symbol.name(), *name);
        assert_eq!(symbol.index(), i);
        assert_eq!(load_step(i), LoadStep::Resolve(symbol));
    }
    assert_eq!(symbol_at(25), None);
    assert_eq!(symbol_at(usize::MAX), None);
}

#[test]
fn version_is_checked_after_the_last_symbol() {
    assert_eq!(VERSION_CHECK_POSITION, 25);
    assert_eq!(load_step(24), LoadStep::Resolve(CoreSymbol::GetMemorySize));
    assert_eq!(load_step(25), LoadStep::CheckVersion);
}

#[test]
fn callbacks_are_registered_in_order_then_init() {
    let order = [
        Callback::Environment,
        Callback::VideoRefresh,
        Callback::AudioSample,
        Callback::AudioSampleBatch,
        Callback::InputPoll,
        Callback::InputState,
    ];
    for (i, callback) in order.iter().enumerate() {
        assert_eq!(callback_at(i), Some(*callback));
        assert_eq!(load_step(26 + i), LoadStep::Register(*callback));
    }
    assert_eq!(callback_at(6), None);
    assert_eq!(INIT_POSITION, 32);
    assert_eq!(load_step(32), LoadStep::Init);
    assert_eq!(load_step(33), LoadStep::Done);
    assert_eq!(load_step(usize::MAX), LoadStep::Done);
}

#[test]
fn registrars() {
    assert_eq!(Callback::Environment.registrar(), CoreSymbol::SetEnvironment);
    assert_eq!(Callback::VideoRefresh.registrar(), CoreSymbol::SetVideoRefresh);
    assert_eq!(Callback::AudioSample.registrar(), CoreSymbol::SetAudioSample);
    assert_eq!(Callback::AudioSampleBatch.registrar(), CoreSymbol::SetAudioSampleBatch);
    assert_eq!(Callback::InputPoll.registrar(), CoreSymbol::SetInputPoll);
    assert_eq!(Callback::InputState.registrar(), CoreSymbol::SetInputState);
}

#[test]
fn only_version_one_is_accepted() {
    assert_eq!(EXPECTED_LIB_RETRO_VERSION, libretro_sys::API_VERSION);
    assert_eq!(check_api_version(1), Ok(()));
    for actual in [0u32, 2, 3, u32::MAX] {
        assert_eq!(
            check_api_version(actual),
            Err(LoadError::VersionMismatch { expected: 1, actual })
        );
    }
}

fn run(outcomes: &[StepOutcome]) -> (LoadSequence, Result<(), LoadError>) {
    let mut sequence = LoadSequence::new();
    let mut last = Ok(());
    for outcome in outcomes {
        last = sequence.report(*outcome);
    }
    (sequence, last)
}

fn good_run() -> Vec<StepOutcome> {
    let mut outcomes = vec![StepOutcome::Found; 25];
    outcomes.push(StepOutcome::Version(1));
    outcomes.extend(vec![StepOutcome::Completed; 7]);
    outcomes
}

#[test]
fn sequence_binds_after_every_step() {
    let outcomes = good_run();
    assert_eq!(outcomes.len(), 33);
    let mut sequence = LoadSequence::new();
    for (position, outcome) in outcomes.iter().enumerate() {
        assert!(!sequence.is_bound());
        assert_eq!(sequence.step(), load_step(position));
        assert_eq!(sequence.report(*outcome), Ok(()));
    }
    assert!(sequence.is_bound());
    assert_eq!(sequence.step(), LoadStep::Done);
    assert_eq!(sequence.report(StepOutcome::Completed), Ok(()));
    assert_eq!(sequence, LoadSequence { position: 33, error: None });
}

#[test]
fn sequence_stops_at_a_missing_symbol() {
    let mut outcomes = vec![StepOutcome::Found; 13];
    outcomes.push(StepOutcome::Missing);
    let (sequence, result) = run(&outcomes);
    let error = LoadError::MissingSymbol(CoreSymbol::Run);
    assert_eq!(result, Err(error));
    assert_eq!(sequence, LoadSequence { position: 13, error: Some(error) });
    assert_eq!(sequence.step(), LoadStep::Done);
    assert!(!sequence.is_bound());
    outcomes.extend(good_run());
    let (sequence, result) = run(&outcomes);
    assert_eq!(result, Err(error));
    assert!(!sequence.is_bound());
    assert_eq!(sequence.position, 13);
}

#[test]
fn sequence_stops_at_a_wrong_version() {
    let mut outcomes = vec![StepOutcome::Found; 25];
    outcomes.push(StepOutcome::Version(2));
    outcomes.extend(vec![StepOutcome::Completed; 7]);
    let (sequence, result) = run(&outcomes);
    let error = LoadError::VersionMismatch { expected: 1, actual: 2 };
    assert_eq!(result, Err(error));
    assert_eq!(sequence, LoadSequence { position: 25, error: Some(error) });
    assert!(!sequence.is_bound());
}

#[test]
fn sequence_ignores_outcomes_out_of_turn() {
    let (sequence, result) = run(&[StepOutcome::Completed, StepOutcome::Version(1), StepOutcome::Version(7)]);
    assert_eq!(result, Ok(()));
    assert_eq!(sequence, LoadSequence { position: 0, error: None });
    let mut outcomes = vec![StepOutcome::Found; 25];
    outcomes.extend([StepOutcome::Found, StepOutcome::Missing, StepOutcome::Completed]);
    let (sequence, result) = run(&outcomes);
    assert_eq!(result, Ok(()));
    assert_eq!(sequence.step(), LoadStep::CheckVersion);
    let mut outcomes = good_run();
    outcomes.truncate(26);
    outcomes.extend([StepOutcome::Found, StepOutcome::Missing, StepOutcome::Version(3)]);
    let (sequence, _) = run(&outcomes);
    assert_eq!(sequence.step(), LoadStep::Register(Callback::Environment));
}
