use rustroarch::savestate::{
    get_save_state_path, new_state_buffer, restore_outcome, save_state_file_name,
    state_to_restore, SaveStateError, StateFile,
};

#[test]
fn file_name_from_stem_and_slot() {
    assert_eq!(save_state_file_name("game.sfc", 0), "game_0.state");
    assert_eq!(save_state_file_name("roms/Super Mario World.sfc", 3), "Super_Mario_World_3.state");
    assert_eq!(save_state_file_name("/a/b/c.tar.gz", 12), "c.tar_12.state");
    assert_eq!(save_state_file_name("noextension", 255), "noextension_255.state");
    assert_eq!(save_state_file_name(".hidden", 7), ".hidden_7.state");
    assert_eq!(save_state_file_name("", 1), "_1.state");
    assert_eq!(save_state_file_name("dir/", 1), "_1.state");
    assert_eq!(save_state_file_name("a  b.x", 10), "a__b_10.state");
}

#[test]
fn slot_is_written_in_decimal() {
    for slot in 0..=255u8 {
        assert_eq!(save_state_file_name("g.bin", slot), format!("g_{}.state", slot));
    }
}

#[test]
fn path_is_name_inside_directory() {
    assert_eq!(get_save_state_path("./states", "roms/My Game.gb", 9), "./states/My_Game_9.state");
    assert_eq!(get_save_state_path("", "x.y", 100), "/x_100.state");
}

#[test]
fn same_arguments_same_path() {
    let save = get_save_state_path("./states", "roms/My Game.gb", 9);
    let load = get_save_state_path("./states", "roms/My Game.gb", 9);
    assert_eq!(save, load);
}

#[test]
fn slots_have_distinct_paths() {
    let mut seen = std::collections::HashSet::new();
    for slot in 0..=255u8 {
        assert!(seen.insert(get_save_state_path("s", "roms/g.bin", slot)));
    }
}

#[test]
fn state_buffer_has_the_requested_size() {
    assert_eq!(new_state_buffer(0), Vec::<u8>::new());
    assert_eq!(new_state_buffer(5), vec![0u8; 5]);
    assert_eq!(new_state_buffer(70000).len(), 70000);
}

#[test]
fn restore_hands_the_bytes_on_unchanged() {
    assert_eq!(state_to_restore(StateFile::Contents(vec![1, 2, 3])), Ok(vec![1, 2, 3]));
    assert_eq!(state_to_restore(StateFile::Contents(vec![])), Ok(vec![]));
}

#[test]
fn restore_without_file_is_an_io_error() {
    assert_eq!(state_to_restore(StateFile::Missing), Err(SaveStateError::Io));
    assert_eq!(state_to_restore(StateFile::Unreadable), Err(SaveStateError::Io));
}

#[test]
fn refused_state_is_reported() {
    assert_eq!(restore_outcome(true), Ok(()));
    assert_eq!(restore_outcome(false), Err(SaveStateError::DeserializeFailed));
}
