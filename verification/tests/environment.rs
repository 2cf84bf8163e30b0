use rustroarch::environment::{
    payload_shape, EnvironmentError, EnvironmentReply, EnvironmentWrite, GameInfoExt, PayloadShape,
    ENVIRONMENT_GET_CAN_DUPE, ENVIRONMENT_GET_GAME_INFO_EXT, ENVIRONMENT_GET_LOG_INTERFACE,
    ENVIRONMENT_GET_SAVE_DIRECTORY, ENVIRONMENT_GET_SYSTEM_DIRECTORY,
    ENVIRONMENT_GET_VARIABLE_UPDATE, ENVIRONMENT_SET_CONTROLLER_INFO, ENVIRONMENT_SET_MEMORY_MAPS,
    ENVIRONMENT_SET_PIXEL_FORMAT,
};
use rustroarch::pixel::PixelFormat;
use rustroarch::session::EmulatorState;

fn fresh() -> EmulatorState {
    EmulatorState::new("roms/game.sfc".to_string(), "core.so".to_string(), "./system".to_string())
}

fn reply(handled: bool, write: EnvironmentWrite, unimplemented: Option<u32>) -> EnvironmentReply {
    EnvironmentReply { handled, write, unimplemented }
}

#[test]
fn command_codes_are_those_of_the_interface() {
    assert_eq!(ENVIRONMENT_GET_CAN_DUPE, libretro_sys::ENVIRONMENT_GET_CAN_DUPE);
    assert_eq!(ENVIRONMENT_GET_SYSTEM_DIRECTORY, libretro_sys::ENVIRONMENT_GET_SYSTEM_DIRECTORY);
    assert_eq!(ENVIRONMENT_SET_PIXEL_FORMAT, libretro_sys::ENVIRONMENT_SET_PIXEL_FORMAT);
    assert_eq!(ENVIRONMENT_GET_VARIABLE_UPDATE, libretro_sys::ENVIRONMENT_GET_VARIABLE_UPDATE);
    assert_eq!(ENVIRONMENT_GET_LOG_INTERFACE, libretro_sys::ENVIRONMENT_GET_LOG_INTERFACE);
    assert_eq!(ENVIRONMENT_GET_SAVE_DIRECTORY, libretro_sys::ENVIRONMENT_GET_SAVE_DIRECTORY);
    assert_eq!(ENVIRONMENT_SET_CONTROLLER_INFO, libretro_sys::ENVIRONMENT_SET_CONTROLLER_INFO);
    assert_eq!(ENVIRONMENT_SET_MEMORY_MAPS, libretro_sys::ENVIRONMENT_SET_MEMORY_MAPS);
    assert_eq!(ENVIRONMENT_GET_GAME_INFO_EXT, 66);
}

#[test]
fn can_dupe_writes_true_and_returns_false() {
    let mut s = fresh();
    let before = s.clone();
    assert_eq!(s.environment(3, None), Ok(reply(false, EnvironmentWrite::Flag(true), None)));
    assert_eq!(s, before);
}

#[test]
fn set_pixel_format_applies_each_known_tag() {
    for (tag, format, width) in [
        (0u32, PixelFormat::Argb1555, 2u8),
        (1, PixelFormat::Argb8888, 4),
        (2, PixelFormat::Rgb565, 2),
    ] {
        let mut s = fresh();
        assert_eq!(s.environment(10, Some(tag)), Ok(reply(true, EnvironmentWrite::Nothing, None)));
        assert_eq!(s.pixel_format, format);
        assert_eq!(s.bytes_per_pixel(), width);
    }
}

#[test]
fn set_pixel_format_with_unknown_tag_fails_and_keeps_the_format() {
    for tag in [3u32, 4, 100, u32::MAX] {
        let mut s = fresh();
        assert!(s.environment(10, Some(2)).is_ok());
        let before = s.clone();
        assert_eq!(s.environment(10, Some(tag)), Err(EnvironmentError::UnknownPixelFormat(tag)));
        assert_eq!(s, before);
        assert_eq!(s.pixel_format, PixelFormat::Rgb565);
    }
}

#[test]
fn set_pixel_format_without_payload_is_declined() {
    let mut s = fresh();
    let before = s.clone();
    assert_eq!(s.environment(10, None), Ok(reply(false, EnvironmentWrite::Nothing, None)));
    assert_eq!(s, before);
}

#[test]
fn variable_update_reports_no_change() {
    let mut s = fresh();
    assert_eq!(s.environment(17, None), Ok(reply(false, EnvironmentWrite::Nothing, None)));
}

#[test]
fn directories_point_at_the_system_directory() {
    let mut s = fresh();
    assert_eq!(s.environment(9, None), Ok(reply(true, EnvironmentWrite::SystemDirectory, None)));
    assert_eq!(s.environment(31, None), Ok(reply(true, EnvironmentWrite::SystemDirectory, None)));
}

#[test]
fn log_interface_is_offered() {
    let mut s = fresh();
    assert_eq!(s.environment(27, None), Ok(reply(true, EnvironmentWrite::LogInterface, None)));
}

#[test]
fn game_info_ext_describes_the_loaded_content() {
    let mut s = fresh();
    assert_eq!(s.environment(66, None), Ok(reply(false, EnvironmentWrite::Nothing, None)));
    assert_eq!(s.game_info_ext(), None);
    s.set_loaded_game("/home/me/roms/Super Game.v2.SFC".to_string(), vec![0u8; 77]);
    let info = GameInfoExt {
        full_path: "/home/me/roms/Super Game.v2.SFC".to_string(),
        dir: "/home/me/roms".to_string(),
        name: "Super Game.v2".to_string(),
        ext: "SFC".to_string(),
        size: 77,
        file_in_archive: false,
        persistent_data: true,
    };
    assert_eq!(s.game_info_ext(), Some(info.clone()));
    let before = s.clone();
    assert_eq!(s.environment(66, None), Ok(reply(true, EnvironmentWrite::GameInfo(info), None)));
    assert_eq!(s, before);
}

#[test]
fn placeholders_are_acknowledged_and_named() {
    let mut s = fresh();
    let before = s.clone();
    assert_eq!(
        s.environment(libretro_sys::ENVIRONMENT_SET_MEMORY_MAPS, None),
        Ok(reply(true, EnvironmentWrite::Nothing, Some(0x10024)))
    );
    assert_eq!(
        s.environment(libretro_sys::ENVIRONMENT_SET_CONTROLLER_INFO, None),
        Ok(reply(true, EnvironmentWrite::Nothing, Some(35)))
    );
    assert_eq!(s, before);
}

#[test]
fn every_other_command_is_declined_without_effect() {
    let others = [
        libretro_sys::ENVIRONMENT_SET_ROTATION,
        libretro_sys::ENVIRONMENT_GET_OVERSCAN,
        libretro_sys::ENVIRONMENT_SET_MESSAGE,
        libretro_sys::ENVIRONMENT_SHUTDOWN,
        libretro_sys::ENVIRONMENT_SET_PERFORMANCE_LEVEL,
        libretro_sys::ENVIRONMENT_SET_INPUT_DESCRIPTORS,
        libretro_sys::ENVIRONMENT_SET_KEYBOARD_CALLBACK,
        libretro_sys::ENVIRONMENT_SET_DISK_CONTROL_INTERFACE,
        libretro_sys::ENVIRONMENT_SET_HW_RENDER,
        libretro_sys::ENVIRONMENT_GET_VARIABLE,
        libretro_sys::ENVIRONMENT_SET_VARIABLES,
        libretro_sys::ENVIRONMENT_SET_SUPPORT_NO_GAME,
        libretro_sys::ENVIRONMENT_GET_LIBRETRO_PATH,
        libretro_sys::ENVIRONMENT_SET_AUDIO_CALLBACK,
        libretro_sys::ENVIRONMENT_SET_FRAME_TIME_CALLBACK,
        libretro_sys::ENVIRONMENT_GET_RUMBLE_INTERFACE,
        libretro_sys::ENVIRONMENT_GET_INPUT_DEVICE_CAPABILITIES,
        libretro_sys::ENVIRONMENT_GET_SENSOR_INTERFACE,
        libretro_sys::ENVIRONMENT_GET_CAMERA_INTERFACE,
        libretro_sys::ENVIRONMENT_GET_PERF_INTERFACE,
        libretro_sys::ENVIRONMENT_GET_LOCATION_INTERFACE,
        libretro_sys::ENVIRONMENT_GET_CORE_ASSETS_DIRECTORY,
        libretro_sys::ENVIRONMENT_SET_SYSTEM_AV_INFO,
        libretro_sys::ENVIRONMENT_SET_PROC_ADDRESS_CALLBACK,
        libretro_sys::ENVIRONMENT_SET_SUBSYSTEM_INFO,
        libretro_sys::ENVIRONMENT_SET_GEOMETRY,
        libretro_sys::ENVIRONMENT_GET_USERNAME,
        libretro_sys::ENVIRONMENT_GET_LANGUAGE,
        libretro_sys::ENVIRONMENT_GET_CURRENT_SOFTWARE_FRAMEBUFFER,
        libretro_sys::ENVIRONMENT_GET_HW_RENDER_INTERFACE,
        0,
        4,
        5,
        20,
        1000,
        u32::MAX,
    ];
    for command in others {
        let mut s = fresh();
        s.set_loaded_game("a.bin".to_string(), vec![1]);
        let before = s.clone();
        assert_eq!(
            s.environment(command, Some(2)),
            Ok(reply(false, EnvironmentWrite::Nothing, Some(command)))
        );
        assert_eq!(s, before);
        assert_eq!(payload_shape(command), PayloadShape::Untouched);
    }
}

#[test]
fn payload_shapes() {
    assert_eq!(payload_shape(3), PayloadShape::WritesBool);
    assert_eq!(payload_shape(10), PayloadShape::ReadsTag);
    assert_eq!(payload_shape(9), PayloadShape::WritesText);
    assert_eq!(payload_shape(31), PayloadShape::WritesText);
    assert_eq!(payload_shape(27), PayloadShape::WritesLogInterface);
    assert_eq!(payload_shape(66), PayloadShape::WritesGameInfo);
    assert_eq!(payload_shape(17), PayloadShape::Untouched);
    assert_eq!(payload_shape(35), PayloadShape::Untouched);
}
