//! Naming of save-state files and the decisions taken while a state is
//! saved or restored. The bytes of a state belong to the core: they are
//! stored and handed back as they are.

use crate::path::{file_stem_chars, spec_file_stem};
use crate::text::{chars_of, string_of};
use vstd::prelude::*;

verus! {

/// Why a save or a restore did not take place. Neither ends the session.
#[derive(Clone, Copy, Debug, PartialEq, Eq, Structural)]
pub enum SaveStateError {
    /// The state file could not be read or written.
    Io,
    /// The core refused the bytes it was given.
    DeserializeFailed,
}

/// What became of the attempt to read a state file.
#[derive(Clone, Debug, PartialEq, Eq)]
pub enum StateFile {
    /// No file at the expected path.
    Missing,
    /// The file is there and could not be read to its end.
    Unreadable,
    /// The whole file.
    Contents(Vec<u8>),
}

/// `s` with each space replaced by an underscore.
pub open spec fn underscored(s: Seq<char>) -> Seq<char> {
    Seq::new(
        s.len(),
        |i: int|
            if s[i] == ' ' {
                '_'
            } else {
                s[i]
            },
    )
}

/// The character for one decimal digit.
pub open spec fn digit(d: int) -> char {
    if d == 0 {
        '0'
    } else if d == 1 {
        '1'
    } else if d == 2 {
        '2'
    } else if d == 3 {
        '3'
    } else if d == 4 {
        '4'
    } else if d == 5 {
        '5'
    } else if d == 6 {
        '6'
    } else if d == 7 {
        '7'
    } else if d == 8 {
        '8'
    } else {
        '9'
    }
}

/// A number in decimal notation, without leading zeros.
pub open spec fn decimal(n: nat) -> Seq<char>
    decreases n,
{
    if n < 10 {
        seq![digit(n as int)]
    } else {
        decimal(n / 10).push(digit((n % 10) as int))
    }
}

/// The ending of every state file's name.
pub open spec fn state_suffix() -> Seq<char> {
    seq!['.', 's', 't', 'a', 't', 'e']
}

/// The name of the state file for the given content and slot: the content's
/// file stem with underscores for spaces, an underscore, the slot in
/// decimal, and `.state`.
pub open spec fn spec_save_state_file_name(rom: Seq<char>, slot: u8) -> Seq<char> {
    underscored(spec_file_stem(rom)) + seq!['_'] + decimal(slot as nat) + state_suffix()
}

/// The state file's path: its name inside the save directory.
pub open spec fn spec_save_state_path(directory: Seq<char>, rom: Seq<char>, slot: u8) -> Seq<
    char,
> {
    directory + seq!['/'] + spec_save_state_file_name(rom, slot)
}

fn digit_char(d: u8) -> (c: char)
    requires
        d < 10,
    ensures
        c == digit(d as int),
{
    match d {
        0 => '0',
        1 => '1',
        2 => '2',
        3 => '3',
        4 => '4',
        5 => '5',
        6 => '6',
        7 => '7',
        8 => '8',
        _ => '9',
    }
}

fn push_decimal(out: &mut Vec<char>, n: u8)
    ensures
        final(out)@ == old(out)@ + decimal(n as nat),
{
    reveal_with_fuel(decimal, 3);
    if n >= 100 {
        out.push(digit_char(n / 100));
    }
    if n >= 10 {
        out.push(digit_char((n / 10) % 10));
    }
    out.push(digit_char(n % 10));
    assert(final(out)@ =~= old(out)@ + decimal(n as nat));
}

fn push_underscored(out: &mut Vec<char>, s: &[char])
    ensures
        final(out)@ == old(out)@ + underscored(s@),
{
    let mut i: usize = 0;
    while i < s.len()
        invariant
            i <= s@.len(),
            out@ == old(out)@ + underscored(s@.take(i as int)),
        decreases s@.len() - i,
    {
        let c: char = s[i];
        if c == ' ' {
            out.push('_');
        } else {
            out.push(c);
        }
        i = i + 1;
        assert(out@ =~= old(out)@ + underscored(s@.take(i as int)));
    }
    assert(s@.take(i as int) == s@);
}

fn push_all(out: &mut Vec<char>, s: &[char])
    ensures
        final(out)@ == old(out)@ + s@,
{
    let mut i: usize = 0;
    while i < s.len()
        invariant
            i <= s@.len(),
            out@ == old(out)@ + s@.take(i as int),
        decreases s@.len() - i,
    {
        out.push(s[i]);
        i = i + 1;
        assert(out@ =~= old(out)@ + s@.take(i as int));
    }
    assert(s@.take(i as int) == s@);
}

fn push_file_name(out: &mut Vec<char>, rom: &[char], slot: u8)
    ensures
        final(out)@ == old(out)@ + spec_save_state_file_name(rom@, slot),
{
    let stem: Vec<char> = file_stem_chars(rom);
    push_underscored(out, stem.as_slice());
    out.push('_');
    push_decimal(out, slot);
    out.push('.');
    out.push('s');
    out.push('t');
    out.push('a');
    out.push('t');
    out.push('e');
    assert(final(out)@ =~= old(out)@ + spec_save_state_file_name(rom@, slot));
}

/// The name of the state file for the given content and slot.
pub fn save_state_file_name(rom: &str, slot: u8) -> (name: String)
    ensures
        name@ == spec_save_state_file_name(rom@, slot),
{
    let rom_chars: Vec<char> = chars_of(rom);
    let mut out: Vec<char> = Vec::new();
    push_file_name(&mut out, rom_chars.as_slice(), slot);
    assert(out@ =~= spec_save_state_file_name(rom@, slot));
    string_of(out.as_slice())
}

/// The path of the state file for the given content and slot inside the
/// save directory. Saving and restoring address the same file because both
/// go through this function.
pub fn get_save_state_path(save_directory: &str, game_file_name: &str, save_state_index: u8) -> (path:
    String)
    ensures
        path@ == spec_save_state_path(save_directory@, game_file_name@, save_state_index),
{
    let directory: Vec<char> = chars_of(save_directory);
    let rom_chars: Vec<char> = chars_of(game_file_name);
    let mut out: Vec<char> = Vec::new();
    push_all(&mut out, directory.as_slice());
    out.push('/');
    push_file_name(&mut out, rom_chars.as_slice(), save_state_index);
    assert(out@ =~= spec_save_state_path(save_directory@, game_file_name@, save_state_index));
    string_of(out.as_slice())
}

/// The buffer that the core fills when it saves: exactly as many bytes as
/// the core asked for, all zero.
pub fn new_state_buffer(size: usize) -> (buffer: Vec<u8>)
    ensures
        buffer@.len() == size,
        forall|i: int| 0 <= i < size ==> buffer@[i] == 0,
{
    let mut buffer: Vec<u8> = Vec::with_capacity(size);
    while buffer.len() < size
        invariant
            buffer@.len() <= size,
            forall|i: int| 0 <= i < buffer@.len() ==> buffer@[i] == 0,
        decreases size - buffer@.len(),
    {
        buffer.push(0);
    }
    buffer
}

/// The first decision of a restore: the bytes to hand to the core, which are
/// the file's bytes unchanged, or the error to report when there is no file
/// to take them from.
pub fn state_to_restore(file: StateFile) -> (bytes: Result<Vec<u8>, SaveStateError>)
    ensures
        match file {
            StateFile::Contents(contents) => bytes == Ok::<Vec<u8>, SaveStateError>(contents),
            _ => bytes == Err::<Vec<u8>, SaveStateError>(SaveStateError::Io),
        },
{
    match file {
        StateFile::Contents(contents) => Ok(contents),
        StateFile::Missing => Err(SaveStateError::Io),
        StateFile::Unreadable => Err(SaveStateError::Io),
    }
}

/// The second decision of a restore: a core that refuses the bytes keeps the
/// state it had, and the refusal is reported.
pub fn restore_outcome(accepted: bool) -> (outcome: Result<(), SaveStateError>)
    ensures
        accepted ==> outcome == Ok::<(), SaveStateError>(()),
        !accepted ==> outcome == Err::<(), SaveStateError>(SaveStateError::DeserializeFailed),
{
    if accepted {
        Ok(())
    } else {
        Err(SaveStateError::DeserializeFailed)
    }
}

/// Decimal notation has one, two or three digits for a number below 256 and
/// tells such numbers apart.
pub proof fn lemma_decimal_is_injective(a: u8, b: u8)
    requires
        decimal(a as nat) == decimal(b as nat),
    ensures
        a == b,
{
    reveal_with_fuel(decimal, 3);
    let da = decimal(a as nat);
    let db = decimal(b as nat);
    assert(da.len() == db.len());
    if a < 10 {
        assert(da[0] == db[0]);
    } else if a < 100 {
        assert(da[0] == db[0]);
        assert(da[1] == db[1]);
    } else {
        assert(da[0] == db[0]);
        assert(da[1] == db[1]);
        assert(da[2] == db[2]);
    }
}

/// Two slots of the same content never share a state file.
pub proof fn lemma_slots_have_distinct_files(directory: Seq<char>, rom: Seq<char>, a: u8, b: u8)
    requires
        a != b,
    ensures
        spec_save_state_file_name(rom, a) != spec_save_state_file_name(rom, b),
        spec_save_state_path(directory, rom, a) != spec_save_state_path(directory, rom, b),
{
    let head = underscored(spec_file_stem(rom)) + seq!['_'];
    let na = spec_save_state_file_name(rom, a);
    let nb = spec_save_state_file_name(rom, b);
    let da = decimal(a as nat);
    let db = decimal(b as nat);
    if na == nb {
        assert(na.len() == head.len() + da.len() + 6);
        assert(nb.len() == head.len() + db.len() + 6);
        assert(da =~= na.subrange(head.len() as int, (head.len() + da.len()) as int));
        assert(db =~= nb.subrange(head.len() as int, (head.len() + db.len()) as int));
        lemma_decimal_is_injective(a, b);
    }
    let pa = spec_save_state_path(directory, rom, a);
    let pb = spec_save_state_path(directory, rom, b);
    if pa == pb {
        let lead = directory.len() + 1;
        assert(na =~= pa.subrange(lead as int, pa.len() as int));
        assert(nb =~= pb.subrange(lead as int, pb.len() as int));
    }
}

} // verus!
