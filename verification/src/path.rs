//! The parts of a content path: directory, file name, stem and extension.
//! Components are separated by `/`; the extension is what follows the last
//! `.` of the file name, unless that `.` is the name's first character.

use crate::text::{
    chars_of, copy_range, find_last, last_index_of, lemma_last_index_in_range,
    lemma_last_index_of, string_of,
};
use vstd::prelude::*;

verus! {

/// What follows the last `/`, or the whole path when it has none.
pub open spec fn spec_file_name(path: Seq<char>) -> Seq<char> {
    path.subrange(last_index_of(path, '/') + 1, path.len() as int)
}

/// What precedes the last `/`, or nothing when the path has none.
pub open spec fn spec_directory(path: Seq<char>) -> Seq<char> {
    if last_index_of(path, '/') < 0 {
        Seq::empty()
    } else {
        path.subrange(0, last_index_of(path, '/'))
    }
}

/// The file name without its extension.
pub open spec fn spec_file_stem(path: Seq<char>) -> Seq<char> {
    let name = spec_file_name(path);
    if last_index_of(name, '.') <= 0 {
        name
    } else {
        name.subrange(0, last_index_of(name, '.'))
    }
}

/// What follows the last `.` of the file name; nothing when the name has no
/// `.` after its first character.
pub open spec fn spec_extension(path: Seq<char>) -> Seq<char> {
    let name = spec_file_name(path);
    if last_index_of(name, '.') <= 0 {
        Seq::empty()
    } else {
        name.subrange(last_index_of(name, '.') + 1, name.len() as int)
    }
}

/// The file name of a path, as characters.
pub fn file_name_chars(path: &[char]) -> (name: Vec<char>)
    ensures
        name@ == spec_file_name(path@),
{
    let length: usize = path.len();
    match find_last(path, '/') {
        Some(i) => copy_range(path, i + 1, length),
        None => copy_range(path, 0, length),
    }
}

/// The directory of a path, as characters.
pub fn directory_chars(path: &[char]) -> (dir: Vec<char>)
    ensures
        dir@ == spec_directory(path@),
{
    match find_last(path, '/') {
        Some(i) => copy_range(path, 0, i),
        None => Vec::new(),
    }
}

/// The stem of a path's file name, as characters.
pub fn file_stem_chars(path: &[char]) -> (stem: Vec<char>)
    ensures
        stem@ == spec_file_stem(path@),
{
    let name: Vec<char> = file_name_chars(path);
    match find_last(name.as_slice(), '.') {
        Some(i) => {
            if i == 0 {
                name
            } else {
                copy_range(name.as_slice(), 0, i)
            }
        },
        None => name,
    }
}

/// The extension of a path's file name, as characters.
pub fn extension_chars(path: &[char]) -> (ext: Vec<char>)
    ensures
        ext@ == spec_extension(path@),
{
    let name: Vec<char> = file_name_chars(path);
    let length: usize = name.len();
    match find_last(name.as_slice(), '.') {
        Some(i) => {
            if i == 0 {
                Vec::new()
            } else {
                copy_range(name.as_slice(), i + 1, length)
            }
        },
        None => Vec::new(),
    }
}

/// The directory of a path.
pub fn directory(path: &str) -> (dir: String)
    ensures
        dir@ == spec_directory(path@),
{
    let chars: Vec<char> = chars_of(path);
    let dir: Vec<char> = directory_chars(chars.as_slice());
    string_of(dir.as_slice())
}

/// The file name of a path without its extension.
pub fn file_stem(path: &str) -> (stem: String)
    ensures
        stem@ == spec_file_stem(path@),
{
    let chars: Vec<char> = chars_of(path);
    let stem: Vec<char> = file_stem_chars(chars.as_slice());
    string_of(stem.as_slice())
}

/// The extension of a path's file name.
pub fn extension(path: &str) -> (ext: String)
    ensures
        ext@ == spec_extension(path@),
{
    let chars: Vec<char> = chars_of(path);
    let ext: Vec<char> = extension_chars(chars.as_slice());
    string_of(ext.as_slice())
}

/// Directory and file name put the path together again, with a `/` between
/// them where the path has one.
pub proof fn lemma_directory_and_name_rebuild_path(path: Seq<char>)
    ensures
        path == if last_index_of(path, '/') >= 0 {
            spec_directory(path) + seq!['/'] + spec_file_name(path)
        } else {
            spec_file_name(path)
        },
{
    lemma_last_index_of(path, '/');
    if last_index_of(path, '/') >= 0 {
        assert(path =~= spec_directory(path) + seq!['/'] + spec_file_name(path));
    } else {
        assert(path =~= spec_file_name(path));
    }
}

/// Stem and extension put the file name together again, with a `.` between
/// them where the name has one after its first character.
pub proof fn lemma_stem_and_extension_rebuild_name(path: Seq<char>)
    ensures
        spec_file_name(path) == if last_index_of(spec_file_name(path), '.') > 0 {
            spec_file_stem(path) + seq!['.'] + spec_extension(path)
        } else {
            spec_file_stem(path)
        },
{
    let name = spec_file_name(path);
    lemma_last_index_of(name, '.');
    if last_index_of(name, '.') > 0 {
        assert(name =~= spec_file_stem(path) + seq!['.'] + spec_extension(path));
    }
}

/// Neither the file name nor the stem holds a `/`.
pub proof fn lemma_file_name_has_no_separator(path: Seq<char>)
    ensures
        !spec_file_name(path).contains('/'),
        !spec_file_stem(path).contains('/'),
{
    lemma_last_index_of(path, '/');
    let name = spec_file_name(path);
    lemma_last_index_in_range(name, '.');
    assert forall|i: int| 0 <= i < name.len() implies name[i] != '/' by {
        assert(name[i] == path[last_index_of(path, '/') + 1 + i]);
    }
}

} // verus!
