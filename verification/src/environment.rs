//! The environment channel: the one callback through which a core asks
//! what the host can do and tells it how frames are encoded. Each call is
//! answered on its own; only the pixel format outlives a call.

use crate::path::{directory, extension, file_stem, spec_directory, spec_extension, spec_file_stem};
use crate::pixel::{pixel_format_of_tag, PixelFormat};
use crate::session::EmulatorState;
use vstd::prelude::*;

verus! {

/// Asks whether the host accepts a repeated frame. Payload: a `bool` to fill in.
pub const ENVIRONMENT_GET_CAN_DUPE: u32 = 3;

/// Asks for the system directory. Payload: a string pointer to fill in.
pub const ENVIRONMENT_GET_SYSTEM_DIRECTORY: u32 = 9;

/// Announces the pixel format. Payload: the format's numeric tag, to read.
pub const ENVIRONMENT_SET_PIXEL_FORMAT: u32 = 10;

/// Asks whether the host changed a variable. Payload: a `bool`, left alone.
pub const ENVIRONMENT_GET_VARIABLE_UPDATE: u32 = 17;

/// Asks for the logging function. Payload: a function pointer to fill in.
pub const ENVIRONMENT_GET_LOG_INTERFACE: u32 = 27;

/// Asks for the save directory. Payload: a string pointer to fill in.
pub const ENVIRONMENT_GET_SAVE_DIRECTORY: u32 = 31;

/// Describes the controllers. Payload: not read.
pub const ENVIRONMENT_SET_CONTROLLER_INFO: u32 = 35;

/// Describes the memory maps. Payload: not read.
pub const ENVIRONMENT_SET_MEMORY_MAPS: u32 = 0x10024;

/// Asks for the extended description of the content. Payload: a pointer to
/// the description, to fill in.
pub const ENVIRONMENT_GET_GAME_INFO_EXT: u32 = 66;

/// How the payload of a command is to be understood.
#[derive(Clone, Copy, Debug, PartialEq, Eq, Structural)]
pub enum PayloadShape {
    /// The host neither reads nor writes the payload.
    Untouched,
    /// The host reads one unsigned 32-bit number.
    ReadsTag,
    /// The host writes one `bool`.
    WritesBool,
    /// The host writes a pointer to a null-terminated string.
    WritesText,
    /// The host writes a pointer to its logging function.
    WritesLogInterface,
    /// The host writes a pointer to a description of the content.
    WritesGameInfo,
}

/// The extended description of the loaded content.
#[derive(Clone, Debug, PartialEq, Eq)]
pub struct GameInfoExt {
    /// The content's path as it was given.
    pub full_path: String,
    /// The directory that holds the content.
    pub dir: String,
    /// The content's file name without its extension.
    pub name: String,
    /// The extension of the content's file name.
    pub ext: String,
    /// The number of content bytes held in memory.
    pub size: usize,
    /// Whether the content came out of an archive; the host opens none.
    pub file_in_archive: bool,
    /// Whether the bytes stay valid for the whole session; they do.
    pub persistent_data: bool,
}

/// What the host stores in the payload before it returns.
#[derive(Clone, Debug, PartialEq, Eq)]
pub enum EnvironmentWrite {
    /// Nothing.
    Nothing,
    /// A `bool`.
    Flag(bool),
    /// A pointer to the session's system directory.
    SystemDirectory,
    /// A pointer to the host's logging function.
    LogInterface,
    /// A pointer to this description.
    GameInfo(GameInfoExt),
}

/// The host's answer to one command.
#[derive(Clone, Debug, PartialEq, Eq)]
pub struct EnvironmentReply {
    /// The value that the callback returns to the core.
    pub handled: bool,
    /// What goes into the payload.
    pub write: EnvironmentWrite,
    /// The command's code when the host has no behaviour for it, for the log.
    pub unimplemented: Option<u32>,
}

/// Why the environment channel gave up. The session cannot go on after it.
#[derive(Clone, Copy, Debug, PartialEq, Eq, Structural)]
pub enum EnvironmentError {
    /// The core announced a pixel format that no tag stands for.
    UnknownPixelFormat(u32),
}

/// The value returned for a command that the host has no behaviour for: two
/// of them are acknowledged, every other one is declined.
pub open spec fn placeholder_answer(command: u32) -> bool {
    command == ENVIRONMENT_SET_MEMORY_MAPS || command == ENVIRONMENT_SET_CONTROLLER_INFO
}

/// The payload's meaning, command by command.
pub open spec fn spec_payload_shape(command: u32) -> PayloadShape {
    if command == ENVIRONMENT_GET_CAN_DUPE {
        PayloadShape::WritesBool
    } else if command == ENVIRONMENT_SET_PIXEL_FORMAT {
        PayloadShape::ReadsTag
    } else if command == ENVIRONMENT_GET_SYSTEM_DIRECTORY || command
        == ENVIRONMENT_GET_SAVE_DIRECTORY {
        PayloadShape::WritesText
    } else if command == ENVIRONMENT_GET_LOG_INTERFACE {
        PayloadShape::WritesLogInterface
    } else if command == ENVIRONMENT_GET_GAME_INFO_EXT {
        PayloadShape::WritesGameInfo
    } else {
        PayloadShape::Untouched
    }
}

/// The pixel format that a call announces, if it announces a known one.
pub open spec fn announced_format(command: u32, tag: Option<u32>) -> Option<PixelFormat> {
    if command == ENVIRONMENT_SET_PIXEL_FORMAT {
        match tag {
            Some(t) => pixel_format_of_tag(t),
            None => None,
        }
    } else {
        None
    }
}

/// Whether a call announces a pixel format that no tag stands for.
pub open spec fn announces_unknown_format(command: u32, tag: Option<u32>) -> bool {
    &&& command == ENVIRONMENT_SET_PIXEL_FORMAT
    &&& tag is Some
    &&& pixel_format_of_tag(tag->0) is None
}

/// Whether `info` describes the content at `path` with `size` bytes in memory.
pub open spec fn describes(info: GameInfoExt, path: Seq<char>, size: nat) -> bool {
    &&& info.full_path@ == path
    &&& info.dir@ == spec_directory(path)
    &&& info.name@ == spec_file_stem(path)
    &&& info.ext@ == spec_extension(path)
    &&& info.size == size
    &&& !info.file_in_archive
    &&& info.persistent_data
}

/// Whether `reply` is the answer to `command` in a session in `state`, where
/// `tag` is the number read from the payload, if the payload was read.
pub open spec fn answers(
    reply: EnvironmentReply,
    state: EmulatorState,
    command: u32,
    tag: Option<u32>,
) -> bool {
    if command == ENVIRONMENT_GET_CAN_DUPE {
        &&& !reply.handled
        &&& reply.write == EnvironmentWrite::Flag(true)
        &&& reply.unimplemented is None
    } else if command == ENVIRONMENT_SET_PIXEL_FORMAT {
        &&& reply.handled == tag is Some
        &&& reply.write is Nothing
        &&& reply.unimplemented is None
    } else if command == ENVIRONMENT_GET_VARIABLE_UPDATE {
        &&& !reply.handled
        &&& reply.write is Nothing
        &&& reply.unimplemented is None
    } else if command == ENVIRONMENT_GET_SYSTEM_DIRECTORY || command
        == ENVIRONMENT_GET_SAVE_DIRECTORY {
        &&& reply.handled
        &&& reply.write is SystemDirectory
        &&& reply.unimplemented is None
    } else if command == ENVIRONMENT_GET_LOG_INTERFACE {
        &&& reply.handled
        &&& reply.write is LogInterface
        &&& reply.unimplemented is None
    } else if command == ENVIRONMENT_GET_GAME_INFO_EXT {
        &&& reply.unimplemented is None
        &&& match state.loaded_game {
            Some(game) => {
                &&& reply.handled
                &&& reply.write matches EnvironmentWrite::GameInfo(info)
                &&& describes(info, game.path@, game.data@.len())
            },
            None => !reply.handled && reply.write is Nothing,
        }
    } else {
        &&& reply.handled == placeholder_answer(command)
        &&& reply.write is Nothing
        &&& reply.unimplemented == Some(command)
    }
}

/// The payload's meaning for a command, so that the caller reads or writes
/// exactly what the command's definition allows.
pub fn payload_shape(command: u32) -> (shape: PayloadShape)
    ensures
        shape == spec_payload_shape(command),
{
    if command == ENVIRONMENT_GET_CAN_DUPE {
        PayloadShape::WritesBool
    } else if command == ENVIRONMENT_SET_PIXEL_FORMAT {
        PayloadShape::ReadsTag
    } else if command == ENVIRONMENT_GET_SYSTEM_DIRECTORY || command
        == ENVIRONMENT_GET_SAVE_DIRECTORY {
        PayloadShape::WritesText
    } else if command == ENVIRONMENT_GET_LOG_INTERFACE {
        PayloadShape::WritesLogInterface
    } else if command == ENVIRONMENT_GET_GAME_INFO_EXT {
        PayloadShape::WritesGameInfo
    } else {
        PayloadShape::Untouched
    }
}

impl EmulatorState {
    /// The extended description of the loaded content, or nothing before any
    /// content is loaded.
    pub fn game_info_ext(&self) -> (info: Option<GameInfoExt>)
        ensures
            match self.loaded_game {
                Some(game) => info matches Some(i) && describes(i, game.path@, game.data@.len()),
                None => info is None,
            },
    {
        match &self.loaded_game {
            Some(game) => {
                let path: &str = game.path.as_str();
                Some(
                    GameInfoExt {
                        full_path: path.to_owned(),
                        dir: directory(path),
                        name: file_stem(path),
                        ext: extension(path),
                        size: game.data.len(),
                        file_in_archive: false,
                        persistent_data: true,
                    },
                )
            },
            None => None,
        }
    }

    /// Answers one command of the core. `tag` is the number read from the
    /// payload where the command's payload is one to read.
    ///
    /// Announcing a pixel format that no tag stands for is the one failure;
    /// it changes nothing. Announcing a known format sets it; an
    /// announcement without a tag is declined. No other command changes the
    /// session, whatever its code: one that the host has no behaviour for is
    /// answered by convention and named in the reply.
    pub fn environment(&mut self, command: u32, tag: Option<u32>) -> (result: Result<
        EnvironmentReply,
        EnvironmentError,
    >)
        ensures
            result is Err <==> announces_unknown_format(command, tag),
            match result {
                Ok(reply) => answers(reply, *old(self), command, tag),
                Err(e) => e == EnvironmentError::UnknownPixelFormat(tag->0),
            },
            *final(self) == (EmulatorState {
                pixel_format: match announced_format(command, tag) {
                    Some(known) => known,
                    None => old(self).pixel_format,
                },
                ..*old(self)
            }),
    {
        if command == ENVIRONMENT_GET_CAN_DUPE {
            Ok(
                EnvironmentReply {
                    handled: false,
                    write: EnvironmentWrite::Flag(true),
                    unimplemented: None,
                },
            )
        } else if command == ENVIRONMENT_SET_PIXEL_FORMAT {
            match tag {
                Some(t) => match PixelFormat::from_tag(t) {
                    Some(format) => {
                        self.pixel_format = format;
                        Ok(
                            EnvironmentReply {
                                handled: true,
                                write: EnvironmentWrite::Nothing,
                                unimplemented: None,
                            },
                        )
                    },
                    None => Err(EnvironmentError::UnknownPixelFormat(t)),
                },
                None => Ok(
                    EnvironmentReply {
                        handled: false,
                        write: EnvironmentWrite::Nothing,
                        unimplemented: None,
                    },
                ),
            }
        } else if command == ENVIRONMENT_GET_VARIABLE_UPDATE {
            Ok(
                EnvironmentReply {
                    handled: false,
                    write: EnvironmentWrite::Nothing,
                    unimplemented: None,
                },
            )
        } else if command == ENVIRONMENT_GET_SYSTEM_DIRECTORY || command
            == ENVIRONMENT_GET_SAVE_DIRECTORY {
            Ok(
                EnvironmentReply {
                    handled: true,
                    write: EnvironmentWrite::SystemDirectory,
                    unimplemented: None,
                },
            )
        } else if command == ENVIRONMENT_GET_LOG_INTERFACE {
            Ok(
                EnvironmentReply {
                    handled: true,
                    write: EnvironmentWrite::LogInterface,
                    unimplemented: None,
                },
            )
        } else if command == ENVIRONMENT_GET_GAME_INFO_EXT {
            match self.game_info_ext() {
                Some(info) => Ok(
                    EnvironmentReply {
                        handled: true,
                        write: EnvironmentWrite::GameInfo(info),
                        unimplemented: None,
                    },
                ),
                None => Ok(
                    EnvironmentReply {
                        handled: false,
                        write: EnvironmentWrite::Nothing,
                        unimplemented: None,
                    },
                ),
            }
        } else {
            Ok(
                EnvironmentReply {
                    handled: command == ENVIRONMENT_SET_MEMORY_MAPS || command
                        == ENVIRONMENT_SET_CONTROLLER_INFO,
                    write: EnvironmentWrite::Nothing,
                    unimplemented: Some(command),
                },
            )
        }
    }
}

/// A call that announces a pixel format under any tag but 0, 1 and 2 is an
/// unknown format, and no call is both that and the announcement of a known
/// one: such a call cannot end in a format being set.
pub proof fn lemma_unknown_format_sets_nothing(command: u32, tag: u32)
    requires
        command == ENVIRONMENT_SET_PIXEL_FORMAT,
        tag > 2,
    ensures
        announces_unknown_format(command, Some(tag)),
        announced_format(command, Some(tag)) is None,
{
}

} // verus!
