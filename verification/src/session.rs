//! The session record and the callbacks through which a core pushes video
//! and audio and pulls input.

use crate::pixel::{normalize, normalized, spec_bytes_per_pixel, PixelFormat};
use crate::savestate::{get_save_state_path, spec_save_state_path};
use vstd::prelude::*;
use vstd::slice::{slice_subrange, slice_to_vec};

verus! {

/// The number of button slots in one input vector.
pub const BUTTON_COUNT: u32 = 16;

/// The colour that fills the part of a presented frame that the core did
/// not deliver.
pub const FILL_COLOR: u32 = 0x0000_FFFF;

/// Why a callback could not take what the core offered.
#[derive(Clone, Copy, Debug, PartialEq, Eq, Structural)]
pub enum BufferError {
    /// The memory handed over holds fewer items than the geometry calls for.
    TooShort,
}

/// The content handed to the core. The core may keep referring to it, so the
/// session owns it for as long as it lasts.
#[derive(Clone, Debug, PartialEq, Eq)]
pub struct LoadedGame {
    /// Path of the content file.
    pub path: String,
    /// The content itself.
    pub data: Vec<u8>,
}

/// Everything the callbacks read and write during a session.
#[derive(Clone, Debug, PartialEq, Eq)]
pub struct EmulatorState {
    /// Path of the loaded content.
    pub rom_name: String,
    /// Path of the loaded core.
    pub core_name: String,
    /// The most recent normalised frame, absent until the first one arrives.
    pub frame_buffer: Option<Vec<u32>>,
    /// The encoding in which the core delivers frames.
    pub pixel_format: PixelFormat,
    /// Stride of the last frame, as the core reported it.
    pub screen_pitch: usize,
    /// Width of the last frame.
    pub screen_width: u32,
    /// Height of the last frame.
    pub screen_height: u32,
    /// The button states that the core reads during the next step.
    pub buttons_pressed: Option<[i16; 16]>,
    /// The samples that the core pushed during the last step.
    pub audio_batch: Option<Vec<i16>>,
    /// The slot that a save or load addresses.
    pub current_save_slot: u8,
    /// The content in use, absent until it is loaded.
    pub loaded_game: Option<LoadedGame>,
    /// The directory that the core is told to keep its files in.
    pub system_directory: String,
}

/// A frame ready for display.
#[derive(Clone, Debug, PartialEq, Eq)]
pub struct PresentedFrame {
    /// At least `width * height` pixels.
    pub pixels: Vec<u32>,
    /// Width in pixels.
    pub width: u32,
    /// Height in pixels.
    pub height: u32,
}

/// The number of bytes that a frame of the given geometry occupies.
pub open spec fn spec_frame_byte_length(format: PixelFormat, pitch: usize, height: u32) -> nat {
    (pitch as nat) * (height as nat) * (spec_bytes_per_pixel(format) as nat)
}

/// A frame extended with `fill` up to `count` pixels; a frame that already
/// has that many is left as it is.
pub open spec fn padded(frame: Seq<u32>, count: nat, fill: u32) -> Seq<u32> {
    if frame.len() >= count {
        frame
    } else {
        frame + Seq::new((count - frame.len()) as nat, |i: int| fill)
    }
}

/// What `input_state` answers for a given input vector and button id.
pub open spec fn spec_input_state(buttons: Option<[i16; 16]>, id: u32) -> i16 {
    match buttons {
        Some(states) => if id < BUTTON_COUNT {
            states@[id as int]
        } else {
            0
        },
        None => 0,
    }
}

/// The number of bytes that a frame of the given geometry occupies, or
/// nothing when that number does not fit the machine's address range.
pub fn frame_byte_length(format: PixelFormat, pitch: usize, height: u32) -> (length: Option<usize>)
    ensures
        match length {
            Some(n) => n == spec_frame_byte_length(format, pitch, height),
            None => spec_frame_byte_length(format, pitch, height) > usize::MAX,
        },
{
    let width: u8 = format.bytes_per_pixel();
    assert((pitch as int) * (height as int) <= 0xffff_ffff_ffff_ffff * 0xffff_ffff)
        by (nonlinear_arith)
        requires
            0 <= pitch <= 0xffff_ffff_ffff_ffff,
            0 <= height <= 0xffff_ffff,
    ;
    let rows: u128 = (pitch as u128) * (height as u128);
    assert(rows * (width as int) <= 0xffff_ffff_ffff_ffff * 0xffff_ffff * 4) by (nonlinear_arith)
        requires
            0 <= rows <= 0xffff_ffff_ffff_ffff * 0xffff_ffff,
            0 <= width <= 4,
    ;
    let total: u128 = rows * (width as u128);
    if total <= usize::MAX as u128 {
        Some(total as usize)
    } else {
        None
    }
}

/// The number of samples in a batch of the given number of stereo frames, or
/// nothing when that number does not fit the machine's address range.
pub fn audio_batch_length(frames: usize) -> (length: Option<usize>)
    ensures
        match length {
            Some(n) => n == 2 * frames,
            None => 2 * frames > usize::MAX,
        },
{
    if frames <= usize::MAX / 2 {
        Some(2 * frames)
    } else {
        None
    }
}

/// The core to load: the one that was asked for, or `default_library` when
/// none was.
pub fn core_name_or_default(core: Option<String>) -> (name: String)
    ensures
        match core {
            Some(given) => name == given,
            None => name@ == "default_library"@,
        },
{
    match core {
        Some(given) => given,
        None => "default_library".to_owned(),
    }
}

impl EmulatorState {
    /// A session for the given content and core, with no frame, no input and
    /// no audio yet, the 32-bit pixel format and save slot 0.
    pub fn new(rom_name: String, core_name: String, system_directory: String) -> (state:
        EmulatorState)
        ensures
            state.rom_name == rom_name,
            state.core_name == core_name,
            state.system_directory == system_directory,
            state.loaded_game is None,
            state.frame_buffer is None,
            state.pixel_format == PixelFormat::Argb8888,
            state.screen_pitch == 0,
            state.screen_width == 0,
            state.screen_height == 0,
            state.buttons_pressed is None,
            state.audio_batch is None,
            state.current_save_slot == 0,
    {
        EmulatorState {
            rom_name,
            core_name,
            frame_buffer: None,
            pixel_format: PixelFormat::Argb8888,
            screen_pitch: 0,
            screen_width: 0,
            screen_height: 0,
            buttons_pressed: None,
            audio_batch: None,
            current_save_slot: 0,
            loaded_game: None,
            system_directory,
        }
    }

    /// Keeps the content that the core is about to be given.
    pub fn set_loaded_game(&mut self, path: String, data: Vec<u8>)
        ensures
            final(self).loaded_game matches Some(game) && game.path == path && game.data == data,
            *final(self) == (EmulatorState { loaded_game: final(self).loaded_game, ..*old(self) }),
    {
        self.loaded_game = Some(LoadedGame { path, data });
    }

    /// The byte width of one pixel in the current format.
    pub fn bytes_per_pixel(&self) -> (n: u8)
        ensures
            n == spec_bytes_per_pixel(self.pixel_format),
    {
        self.pixel_format.bytes_per_pixel()
    }

    /// Takes a frame from the core. Without a buffer the core repeats its
    /// last frame and nothing changes. With one, the first
    /// `pitch * height * bytes_per_pixel` bytes are normalised and replace
    /// the frame together with its geometry; a buffer shorter than that is
    /// refused and nothing changes.
    ///
    /// Compatibility: the length is computed in this one way for every
    /// pixel format, the 32-bit one included, so a frame always holds
    /// `pitch * height` pixels. A core whose pitch exceeds its width
    /// delivers rows that are longer than what is shown of them.
    pub fn video_refresh(
        &mut self,
        data: Option<&[u8]>,
        width: u32,
        height: u32,
        pitch: usize,
    ) -> (result: Result<(), BufferError>)
        ensures
            data is None ==> result is Ok && *final(self) == *old(self),
            data matches Some(bytes) ==> {
                let length = spec_frame_byte_length(old(self).pixel_format, pitch, height);
                if bytes@.len() >= length {
                    &&& result is Ok
                    &&& final(self).frame_buffer matches Some(frame)
                    &&& frame@ == normalized(
                        old(self).pixel_format,
                        bytes@.subrange(0, length as int),
                    )
                    &&& frame@.len() == (pitch as nat) * (height as nat)
                    &&& *final(self) == (EmulatorState {
                        frame_buffer: final(self).frame_buffer,
                        screen_width: width,
                        screen_height: height,
                        screen_pitch: pitch,
                        ..*old(self)
                    })
                } else {
                    &&& result == Err::<(), BufferError>(BufferError::TooShort)
                    &&& *final(self) == *old(self)
                }
            },
    {
        let bytes: &[u8] = match data {
            None => {
                return Ok(());
            },
            Some(bytes) => bytes,
        };
        let available: usize = bytes.len();
        let length: usize = match frame_byte_length(self.pixel_format, pitch, height) {
            Some(n) => n,
            None => {
                return Err(BufferError::TooShort);
            },
        };
        if available < length {
            return Err(BufferError::TooShort);
        }
        let ghost rows: nat = (pitch as nat) * (height as nat);
        let ghost width_in_bytes: nat = spec_bytes_per_pixel(self.pixel_format) as nat;
        assert(rows * width_in_bytes % width_in_bytes == 0) by (nonlinear_arith)
            requires
                width_in_bytes > 0,
        ;
        match normalize(self.pixel_format, slice_subrange(bytes, 0, length)) {
            Ok(frame) => {
                assert(frame@.len() == rows) by (nonlinear_arith)
                    requires
                        frame@.len() * width_in_bytes == rows * width_in_bytes,
                        width_in_bytes > 0,
                ;
                self.frame_buffer = Some(frame);
                self.screen_width = width;
                self.screen_height = height;
                self.screen_pitch = pitch;
                Ok(())
            },
            Err(_) => Err(BufferError::TooShort),
        }
    }

    /// The synchronisation point that a core calls once per step. The input
    /// vector was written before the step, so nothing is left to do.
    pub fn input_poll(&mut self)
        ensures
            *final(self) == *old(self),
    {
    }

    /// The state of button `id`: the value in its slot, or 0 when no input
    /// vector is set or `id` names no slot.
    pub fn input_state(&self, port: u32, device: u32, index: u32, id: u32) -> (pressed: i16)
        ensures
            pressed == spec_input_state(self.buttons_pressed, id),
            self.buttons_pressed is None || id >= 16 ==> pressed == 0,
    {
        match &self.buttons_pressed {
            Some(states) => {
                if id < BUTTON_COUNT {
                    states[id as usize]
                } else {
                    0
                }
            },
            None => 0,
        }
    }

    /// Sets the button states that the core reads during the next step.
    pub fn set_pending_input(&mut self, buttons: [i16; 16])
        ensures
            *final(self) == (EmulatorState { buttons_pressed: Some(buttons), ..*old(self) }),
    {
        self.buttons_pressed = Some(buttons);
    }

    /// The single-frame audio path. Cores push their audio in batches, so a
    /// lone sample pair is dropped.
    pub fn audio_sample(&mut self, left: i16, right: i16)
        ensures
            *final(self) == *old(self),
    {
    }

    /// Takes `frames` stereo frames from the core: the first `2 * frames`
    /// samples replace whatever batch was waiting, and the core is told that
    /// all of them were consumed. Fewer samples than that are refused and
    /// nothing changes.
    pub fn audio_sample_batch(&mut self, data: &[i16], frames: usize) -> (result: Result<
        usize,
        BufferError,
    >)
        ensures
            data@.len() >= 2 * frames ==> {
                &&& result == Ok::<usize, BufferError>(frames)
                &&& final(self).audio_batch matches Some(batch)
                &&& batch@ == data@.subrange(0, 2 * frames)
                &&& *final(self) == (EmulatorState {
                    audio_batch: final(self).audio_batch,
                    ..*old(self)
                })
            },
            data@.len() < 2 * frames ==> {
                &&& result == Err::<usize, BufferError>(BufferError::TooShort)
                &&& *final(self) == *old(self)
            },
    {
        if frames > data.len() / 2 {
            return Err(BufferError::TooShort);
        }
        let batch: Vec<i16> = slice_to_vec(slice_subrange(data, 0, 2 * frames));
        self.audio_batch = Some(batch);
        Ok(frames)
    }

    /// Hands over the waiting audio batch, if there is one, and leaves none
    /// behind.
    pub fn take_audio_batch(&mut self) -> (batch: Option<Vec<i16>>)
        ensures
            batch == old(self).audio_batch,
            *final(self) == (EmulatorState { audio_batch: None, ..*old(self) }),
    {
        self.audio_batch.take()
    }

    /// The file that a save or a restore addresses now: the one for this
    /// session's content and current slot inside the save directory.
    pub fn save_state_path(&self, save_directory: &str) -> (path: String)
        ensures
            path@ == spec_save_state_path(save_directory@, self.rom_name@, self.current_save_slot),
    {
        get_save_state_path(save_directory, self.rom_name.as_str(), self.current_save_slot)
    }

    /// Moves to the next save slot; the last slot, 255, stays where it is.
    pub fn increase_save_slot(&mut self)
        ensures
            final(self).current_save_slot == if old(self).current_save_slot == 255 {
                255u8
            } else {
                (old(self).current_save_slot + 1) as u8
            },
            *final(self) == (EmulatorState {
                current_save_slot: final(self).current_save_slot,
                ..*old(self)
            }),
    {
        if self.current_save_slot != 255 {
            self.current_save_slot = self.current_save_slot + 1;
        }
    }

    /// Moves to the previous save slot; the first slot, 0, stays where it is.
    pub fn decrease_save_slot(&mut self)
        ensures
            final(self).current_save_slot == if old(self).current_save_slot == 0 {
                0u8
            } else {
                (old(self).current_save_slot - 1) as u8
            },
            *final(self) == (EmulatorState {
                current_save_slot: final(self).current_save_slot,
                ..*old(self)
            }),
    {
        if self.current_save_slot != 0 {
            self.current_save_slot = self.current_save_slot - 1;
        }
    }

    /// The frame to display, or nothing before the first frame has arrived.
    /// A frame with fewer than `width * height` pixels is extended with
    /// `FILL_COLOR`; no frame is ever cut short.
    pub fn present(&self) -> (shown: Option<PresentedFrame>)
        requires
            self.screen_width * self.screen_height <= usize::MAX,
        ensures
            shown is None <==> self.frame_buffer is None,
            shown matches Some(frame) ==> {
                &&& frame.width == self.screen_width
                &&& frame.height == self.screen_height
                &&& frame.pixels@ == padded(
                    self.frame_buffer->0@,
                    (self.screen_width * self.screen_height) as nat,
                    FILL_COLOR,
                )
                &&& frame.pixels@.len() >= self.screen_width * self.screen_height
            },
    {
        let frame: &Vec<u32> = match &self.frame_buffer {
            None => {
                return None;
            },
            Some(frame) => frame,
        };
        assert(0 <= self.screen_width * self.screen_height) by (nonlinear_arith);
        let count: usize = (self.screen_width as usize) * (self.screen_height as usize);
        let mut pixels: Vec<u32> = slice_to_vec(frame.as_slice());
        while pixels.len() < count
            invariant
                pixels@.len() >= frame@.len(),
                pixels@.len() <= count || pixels@.len() == frame@.len(),
                pixels@.subrange(0, frame@.len() as int) == frame@,
                forall|i: int| frame@.len() <= i < pixels@.len() ==> pixels@[i] == FILL_COLOR,
            decreases count - pixels@.len(),
        {
            pixels.push(FILL_COLOR);
        }
        assert(pixels@ =~= padded(frame@, count as nat, FILL_COLOR));
        Some(PresentedFrame { pixels, width: self.screen_width, height: self.screen_height })
    }
}

/// Whether one of `ids` is the number of `slot`.
pub open spec fn names_slot(ids: Seq<usize>, slot: int) -> bool {
    exists|j: int| 0 <= j < ids.len() && ids[j] == slot
}

/// The input vector in which exactly the buttons named in `ids` are pressed.
pub open spec fn spec_buttons_from_ids(ids: Seq<usize>) -> Seq<i16> {
    Seq::new(
        16,
        |slot: int|
            if names_slot(ids, slot) {
                1i16
            } else {
                0i16
            },
    )
}

/// Builds the input vector for one step from the ids of the buttons that are
/// held down. An id that names no slot presses nothing.
pub fn buttons_from_ids(ids: &[usize]) -> (buttons: [i16; 16])
    ensures
        buttons@ == spec_buttons_from_ids(ids@),
{
    let mut buttons: [i16; 16] = [0i16; 16];
    let mut i: usize = 0;
    while i < ids.len()
        invariant
            i <= ids@.len(),
            buttons@ == spec_buttons_from_ids(ids@.take(i as int)),
        decreases ids@.len() - i,
    {
        let id: usize = ids[i];
        let ghost before = ids@.take(i as int);
        let ghost after = ids@.take(i + 1);
        assert(after == before.push(id));
        assert forall|slot: int| 0 <= slot < 16 implies (#[trigger] names_slot(after, slot) <==> (
        names_slot(before, slot) || slot == id)) by {
            if names_slot(before, slot) {
                let j = choose|j: int| 0 <= j < before.len() && before[j] == slot;
                assert(after[j] == slot);
            }
            if slot == id {
                assert(after[i as int] == id);
            }
        }
        if id < 16 {
            buttons[id] = 1;
        }
        assert(buttons@ =~= spec_buttons_from_ids(after));
        i = i + 1;
    }
    assert(ids@.take(ids@.len() as int) == ids@);
    buttons
}

/// With an input vector that holds a single 1, in slot `k`, and 0 in every
/// other slot, `input_state` answers 1 for button `k` and 0 for every other
/// id.
pub proof fn lemma_single_button(buttons: [i16; 16], k: int, id: u32)
    requires
        0 <= k < 16,
        forall|slot: int| 0 <= slot < 16 ==> buttons@[slot] == if slot == k {
            1i16
        } else {
            0i16
        },
    ensures
        spec_input_state(Some(buttons), id) == 1 <==> id == k,
        id != k ==> spec_input_state(Some(buttons), id) == 0,
{
}

/// Before any input vector is set, and for every id from 16 on, `input_state`
/// answers 0.
pub proof fn lemma_no_input_is_not_pressed(buttons: Option<[i16; 16]>, id: u32)
    requires
        buttons is None || id >= 16,
    ensures
        spec_input_state(buttons, id) == 0,
{
}

} // verus!
