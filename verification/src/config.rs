//! The configuration: named text values with defaults. A later entry under
//! a name replaces an earlier one, so a file read later takes precedence.

use crate::text::{
    chars_of, copy_range, find_first, first_index_of, lemma_first_index_of, string_of,
};
use vstd::prelude::*;
use vstd::slice::slice_subrange;
use vstd::string::StringExecFns;

verus! {

/// A list of named values in the order in which they were set.
#[derive(Clone, Debug, PartialEq, Eq)]
pub struct Config {
    /// Name and value of each entry; the last entry under a name counts.
    pub entries: Vec<(String, String)>,
}

/// The value under `key`: that of the last entry with this name.
pub open spec fn lookup_in(entries: Seq<(Seq<char>, Seq<char>)>, key: Seq<char>) -> Option<
    Seq<char>,
>
    decreases entries.len(),
{
    if entries.len() == 0 {
        None
    } else if entries.last().0 == key {
        Some(entries.last().1)
    } else {
        lookup_in(entries.drop_last(), key)
    }
}

/// A lookup in two lists put one after the other finds the value in the
/// second list if it has one, and in the first list otherwise.
pub proof fn lemma_lookup_in_concatenation(
    first: Seq<(Seq<char>, Seq<char>)>,
    second: Seq<(Seq<char>, Seq<char>)>,
    key: Seq<char>,
)
    ensures
        lookup_in(first + second, key) == match lookup_in(second, key) {
            Some(value) => Some(value),
            None => lookup_in(first, key),
        },
    decreases second.len(),
{
    if second.len() == 0 {
        assert(first + second =~= first);
    } else {
        assert((first + second).drop_last() =~= first + second.drop_last());
        assert((first + second).last() == second.last());
        lemma_lookup_in_concatenation(first, second.drop_last(), key);
    }
}

impl Config {
    /// The entries as names and values.
    pub open spec fn model(&self) -> Seq<(Seq<char>, Seq<char>)> {
        Seq::new(self.entries@.len(), |i: int| (self.entries@[i].0@, self.entries@[i].1@))
    }

    /// The value under `key`, if there is one.
    pub open spec fn spec_get(&self, key: Seq<char>) -> Option<Seq<char>> {
        lookup_in(self.model(), key)
    }

    /// A configuration without entries.
    pub fn new() -> (config: Config)
        ensures
            config.model() == Seq::<(Seq<char>, Seq<char>)>::empty(),
            forall|key: Seq<char>| config.spec_get(key) is None,
    {
        let config = Config { entries: Vec::new() };
        assert(config.model() =~= Seq::<(Seq<char>, Seq<char>)>::empty());
        config
    }

    /// Sets the value under `key`, whether or not it had one.
    pub fn insert(&mut self, key: String, value: String)
        ensures
            final(self).model() == old(self).model().push((key@, value@)),
            final(self).spec_get(key@) == Some(value@),
            forall|other: Seq<char>|
                other != key@ ==> final(self).spec_get(other) == old(self).spec_get(other),
    {
        let ghost before = self.model();
        let ghost pair = (key@, value@);
        self.entries.push((key, value));
        assert(self.model() =~= before.push(pair));
        assert(self.model().drop_last() =~= before);
    }

    /// The value under `key`, if there is one.
    pub fn get(&self, key: &str) -> (value: Option<String>)
        ensures
            match value {
                Some(text) => self.spec_get(key@) == Some(text@),
                None => self.spec_get(key@) is None,
            },
    {
        let wanted: String = key.to_owned();
        let mut i: usize = self.entries.len();
        assert(self.model().take(i as int) =~= self.model());
        while i > 0
            invariant
                i <= self.entries@.len(),
                wanted@ == key@,
                lookup_in(self.model(), key@) == lookup_in(self.model().take(i as int), key@),
            decreases i,
        {
            let ghost prefix = self.model().take(i as int);
            assert(prefix.drop_last() =~= self.model().take(i - 1));
            assert(prefix.last() == self.model()[i - 1]);
            if self.entries[i - 1].0 == wanted {
                return Some(self.entries[i - 1].1.clone());
            }
            i = i - 1;
        }
        None
    }

    /// Sets every entry of `overlay`, in its order, on top of this
    /// configuration: a name that `overlay` has takes its value from there.
    pub fn extend(&mut self, overlay: Config)
        ensures
            final(self).model() == old(self).model() + overlay.model(),
            forall|key: Seq<char>| #[trigger]
                final(self).spec_get(key) == match overlay.spec_get(key) {
                    Some(value) => Some(value),
                    None => old(self).spec_get(key),
                },
    {
        let ghost before = self.model();
        let ghost added = overlay.model();
        let mut rest: Vec<(String, String)> = overlay.entries;
        self.entries.append(&mut rest);
        assert(self.model() =~= before + added);
        assert forall|key: Seq<char>| #[trigger]
            self.spec_get(key) == match overlay.spec_get(key) {
                Some(value) => Some(value),
                None => lookup_in(before, key),
            } by {
            lemma_lookup_in_concatenation(before, added, key);
        }
    }
}

/// Whether a character is white space: the blank, the controls from tab to
/// carriage return, next line, the no-break spaces, and the other spaces and
/// separators of wider scripts.
pub open spec fn is_whitespace(c: char) -> bool {
    let n = c as u32;
    ||| 0x09 <= n <= 0x0d
    ||| n == 0x20
    ||| n == 0x85
    ||| n == 0xa0
    ||| n == 0x1680
    ||| 0x2000 <= n <= 0x200a
    ||| n == 0x2028
    ||| n == 0x2029
    ||| n == 0x202f
    ||| n == 0x205f
    ||| n == 0x3000
}

/// The number of white-space characters at the start of `s`.
pub open spec fn leading_whitespace(s: Seq<char>) -> nat
    decreases s.len(),
{
    if s.len() > 0 && is_whitespace(s.first()) {
        1 + leading_whitespace(s.drop_first())
    } else {
        0
    }
}

/// The number of white-space characters at the end of `s`.
pub open spec fn trailing_whitespace(s: Seq<char>) -> nat
    decreases s.len(),
{
    if s.len() > 0 && is_whitespace(s.last()) {
        1 + trailing_whitespace(s.drop_last())
    } else {
        0
    }
}

/// `s` without the white space at its start and at its end.
pub open spec fn trimmed(s: Seq<char>) -> Seq<char> {
    let tail = s.skip(leading_whitespace(s) as int);
    tail.take(tail.len() - trailing_whitespace(tail))
}

/// `s` without its double quotes.
pub open spec fn unquoted(s: Seq<char>) -> Seq<char>
    decreases s.len(),
{
    if s.len() == 0 {
        s
    } else if s.last() == '"' {
        unquoted(s.drop_last())
    } else {
        unquoted(s.drop_last()).push(s.last())
    }
}

/// The entry that a line sets: the name is what stands before the first
/// `=`, trimmed; the value is what follows it, trimmed and then freed of
/// double quotes. A line without `=` sets nothing.
pub open spec fn parse_line(line: Seq<char>) -> Option<(Seq<char>, Seq<char>)> {
    let split = first_index_of(line, '=');
    if split >= line.len() {
        None
    } else {
        Some(
            (
                trimmed(line.take(split)),
                unquoted(trimmed(line.skip(split + 1))),
            ),
        )
    }
}

/// The entries that a line sets: one or none.
pub open spec fn entries_of_line(line: Seq<char>) -> Seq<(Seq<char>, Seq<char>)> {
    match parse_line(line) {
        Some(entry) => seq![entry],
        None => Seq::empty(),
    }
}

/// The entries that a text sets, line by line. Lines end at a line feed; the
/// last line need not have one.
pub open spec fn parse_text(text: Seq<char>) -> Seq<(Seq<char>, Seq<char>)>
    decreases text.len(),
{
    let end = first_index_of(text, '\n');
    if text.len() == 0 {
        Seq::empty()
    } else if end >= text.len() {
        entries_of_line(text)
    } else {
        proof {
            lemma_first_index_of(text, '\n');
        }
        entries_of_line(text.take(end)) + parse_text(text.skip(end + 1))
    }
}

/// Whether a character is white space.
pub fn char_is_whitespace(c: char) -> (b: bool)
    ensures
        b == is_whitespace(c),
{
    let n: u32 = c as u32;
    (0x09 <= n && n <= 0x0d) || n == 0x20 || n == 0x85 || n == 0xa0 || n == 0x1680 || (0x2000 <= n
        && n <= 0x200a) || n == 0x2028 || n == 0x2029 || n == 0x202f || n == 0x205f || n == 0x3000
}

/// `s` without the white space at its start and at its end.
pub fn trim(s: &[char]) -> (out: Vec<char>)
    ensures
        out@ == trimmed(s@),
{
    let mut start: usize = 0;
    assert(s@.skip(0) =~= s@);
    while start < s.len() && char_is_whitespace(s[start])
        invariant
            start <= s@.len(),
            leading_whitespace(s@) == start + leading_whitespace(s@.skip(start as int)),
        decreases s@.len() - start,
    {
        assert(s@.skip(start as int).drop_first() =~= s@.skip(start + 1));
        start = start + 1;
    }
    let ghost tail = s@.skip(start as int);
    assert(leading_whitespace(tail) == 0) by {
        if start < s@.len() {
            assert(tail.first() == s@[start as int]);
        }
    }
    let mut end: usize = s.len();
    assert(tail.take(tail.len() as int) =~= tail);
    while end > start && char_is_whitespace(s[end - 1])
        invariant
            start <= end <= s@.len(),
            tail == s@.skip(start as int),
            trailing_whitespace(tail) == (s@.len() - end) + trailing_whitespace(
                tail.take(end - start),
            ),
        decreases end,
    {
        let ghost part = tail.take(end - start);
        assert(part.last() == s@[end - 1]);
        assert(part.drop_last() =~= tail.take(end - 1 - start));
        end = end - 1;
    }
    let ghost part = tail.take(end - start);
    assert(trailing_whitespace(part) == 0) by {
        if end > start {
            assert(part.last() == s@[end - 1]);
        }
    }
    assert(s@.subrange(start as int, end as int) =~= trimmed(s@));
    copy_range(s, start, end)
}

/// `s` without its double quotes.
pub fn strip_quotes(s: &[char]) -> (out: Vec<char>)
    ensures
        out@ == unquoted(s@),
{
    let mut out: Vec<char> = Vec::new();
    let mut i: usize = 0;
    while i < s.len()
        invariant
            i <= s@.len(),
            out@ == unquoted(s@.take(i as int)),
        decreases s@.len() - i,
    {
        let ghost next = s@.take(i + 1);
        assert(next.drop_last() =~= s@.take(i as int));
        assert(next.last() == s@[i as int]);
        if s[i] != '"' {
            out.push(s[i]);
        }
        i = i + 1;
    }
    assert(s@.take(i as int) =~= s@);
    out
}

/// Reads one line of a configuration text.
pub fn parse_config_line(line: &[char]) -> (entry: Option<(Vec<char>, Vec<char>)>)
    ensures
        match entry {
            Some(pair) => parse_line(line@) == Some((pair.0@, pair.1@)),
            None => parse_line(line@) is None,
        },
{
    let length: usize = line.len();
    match find_first(line, '=') {
        Some(split) => {
            let key: Vec<char> = trim(slice_subrange(line, 0, split));
            let raw: Vec<char> = trim(slice_subrange(line, split + 1, length));
            let value: Vec<char> = strip_quotes(raw.as_slice());
            assert(line@.subrange(0, split as int) =~= line@.take(split as int));
            assert(line@.subrange(split + 1, length as int) =~= line@.skip(split + 1));
            Some((key, value))
        },
        None => None,
    }
}

/// Reads a configuration text: every line that holds a `=` sets an entry,
/// in the order of the lines.
pub fn parse_retroarch_config(text: &str) -> (config: Config)
    ensures
        config.model() == parse_text(text@),
{
    let chars: Vec<char> = chars_of(text);
    let all: &[char] = chars.as_slice();
    let length: usize = all.len();
    let mut config = Config::new();
    let mut start: usize = 0;
    assert(all@.skip(0) =~= all@);
    while start < length
        invariant
            start <= length == all@.len(),
            all@ == text@,
            parse_text(all@) == config.model() + parse_text(all@.skip(start as int)),
        decreases length - start,
    {
        let rest: &[char] = slice_subrange(all, start, length);
        assert(rest@ =~= all@.skip(start as int));
        let ghost before = config.model();
        proof {
            lemma_first_index_of(rest@, '\n');
        }
        let end: usize = match find_first(rest, '\n') {
            Some(i) => i,
            None => rest.len(),
        };
        let line: &[char] = slice_subrange(rest, 0, end);
        assert(line@ =~= rest@.take(end as int));
        match parse_config_line(line) {
            Some(pair) => {
                config.insert(string_of(pair.0.as_slice()), string_of(pair.1.as_slice()));
            },
            None => {},
        }
        assert(config.model() =~= before + entries_of_line(line@));
        if end < rest.len() {
            assert(rest@.skip(end + 1) =~= all@.skip(start + end + 1));
            start = start + end + 1;
        } else {
            assert(rest@.take(end as int) =~= rest@);
            assert(all@.skip(length as int).len() == 0);
            start = length;
        }
        assert(parse_text(all@) =~= config.model() + parse_text(all@.skip(start as int)));
    }
    assert(parse_text(all@) =~= config.model());
    config
}

/// The name of the environment variable that holds the directory under
/// which the shared configuration lives on the given operating system.
pub open spec fn spec_config_home_variable(os: Seq<char>) -> Seq<char> {
    if os == "windows"@ {
        "APPDATA"@
    } else if os == "macos"@ {
        "HOME"@
    } else {
        "XDG_CONFIG_HOME"@
    }
}

/// The directory of the shared configuration below its home directory.
pub open spec fn spec_config_subdirectory(os: Seq<char>) -> Seq<char> {
    if os == "windows"@ {
        "retroarch"@
    } else if os == "macos"@ {
        "Library/Application Support/RetroArch"@
    } else {
        "retroarch"@
    }
}

/// The name of the environment variable that holds the directory under
/// which the shared configuration lives.
pub fn config_home_variable(os: &str) -> (variable: &'static str)
    ensures
        variable@ == spec_config_home_variable(os@),
{
    let name: String = os.to_owned();
    if name == "windows".to_owned() {
        "APPDATA"
    } else if name == "macos".to_owned() {
        "HOME"
    } else {
        "XDG_CONFIG_HOME"
    }
}

/// The directory of the shared configuration: the home directory, a `/`,
/// and the subdirectory that the operating system calls for.
pub fn get_retroarch_config_path(os: &str, home: &str) -> (path: String)
    ensures
        path@ == home@ + "/"@ + spec_config_subdirectory(os@),
{
    let name: String = os.to_owned();
    let mut path: String = home.to_owned();
    path.append("/");
    if name == "windows".to_owned() {
        path.append("retroarch");
    } else if name == "macos".to_owned() {
        path.append("Library/Application Support/RetroArch");
    } else {
        path.append("retroarch");
    }
    path
}

/// The shared configuration file: `config/retroarch.cfg` inside the
/// directory of the shared configuration.
pub fn shared_config_file(os: &str, home: &str) -> (path: String)
    ensures
        path@ == home@ + "/"@ + spec_config_subdirectory(os@) + "/config/retroarch.cfg"@,
{
    let mut path: String = get_retroarch_config_path(os, home);
    path.append("/config/retroarch.cfg");
    path
}

/// The host's own configuration file, in the working directory.
pub fn own_config_file() -> (path: &'static str)
    ensures
        path@ == "./rustroarch.cfg"@,
{
    "./rustroarch.cfg"
}

/// The entries that every configuration starts from.
pub open spec fn default_entries() -> Seq<(Seq<char>, Seq<char>)> {
    seq![
        ("input_player1_a"@, "a"@),
        ("input_player1_b"@, "s"@),
        ("input_player1_x"@, "z"@),
        ("input_player1_y"@, "x"@),
        ("input_player1_l"@, "q"@),
        ("input_player1_r"@, "w"@),
        ("input_player1_down"@, "down"@),
        ("input_player1_up"@, "up"@),
        ("input_player1_left"@, "left"@),
        ("input_player1_right"@, "right"@),
        ("input_player1_select"@, "space"@),
        ("input_player1_start"@, "enter"@),
        ("input_reset"@, "h"@),
        ("input_save_state"@, "f2"@),
        ("input_load_state"@, "f4"@),
        ("input_screenshot"@, "f8"@),
        ("savestate_directory"@, "./states"@),
        ("input_state_slot_decrease"@, "f6"@),
        ("input_state_slot_increase"@, "f7"@),
    ]
}

/// What a configuration file that may be absent contributes.
pub open spec fn entries_or_none(file: Option<Config>) -> Seq<(Seq<char>, Seq<char>)> {
    match file {
        Some(config) => config.model(),
        None => Seq::empty(),
    }
}

/// The configuration that every session starts from.
pub fn default_config() -> (config: Config)
    ensures
        config.model() == default_entries(),
{
    let mut config = Config::new();
    config.insert("input_player1_a".to_owned(), "a".to_owned());
    config.insert("input_player1_b".to_owned(), "s".to_owned());
    config.insert("input_player1_x".to_owned(), "z".to_owned());
    config.insert("input_player1_y".to_owned(), "x".to_owned());
    config.insert("input_player1_l".to_owned(), "q".to_owned());
    config.insert("input_player1_r".to_owned(), "w".to_owned());
    config.insert("input_player1_down".to_owned(), "down".to_owned());
    config.insert("input_player1_up".to_owned(), "up".to_owned());
    config.insert("input_player1_left".to_owned(), "left".to_owned());
    config.insert("input_player1_right".to_owned(), "right".to_owned());
    config.insert("input_player1_select".to_owned(), "space".to_owned());
    config.insert("input_player1_start".to_owned(), "enter".to_owned());
    config.insert("input_reset".to_owned(), "h".to_owned());
    config.insert("input_save_state".to_owned(), "f2".to_owned());
    config.insert("input_load_state".to_owned(), "f4".to_owned());
    config.insert("input_screenshot".to_owned(), "f8".to_owned());
    config.insert("savestate_directory".to_owned(), "./states".to_owned());
    config.insert("input_state_slot_decrease".to_owned(), "f6".to_owned());
    config.insert("input_state_slot_increase".to_owned(), "f7".to_owned());
    assert(config.model() =~= default_entries());
    config
}

/// The configuration of a session: the defaults, overlaid with the shared
/// configuration file where there is one, overlaid with the host's own file
/// where there is one. A name takes its value from the last of the three
/// that has it.
pub fn setup_config(shared: Option<Config>, own: Option<Config>) -> (config: Config)
    ensures
        config.model() == default_entries() + entries_or_none(shared) + entries_or_none(own),
        forall|key: Seq<char>| #[trigger]
            config.spec_get(key) == match lookup_in(entries_or_none(own), key) {
                Some(value) => Some(value),
                None => match lookup_in(entries_or_none(shared), key) {
                    Some(value) => Some(value),
                    None => lookup_in(default_entries(), key),
                },
            },
{
    let ghost shared_entries = entries_or_none(shared);
    let ghost own_entries = entries_or_none(own);
    let mut config = default_config();
    match shared {
        Some(overlay) => {
            config.extend(overlay);
        },
        None => {
            assert(config.model() + shared_entries =~= config.model());
        },
    }
    match own {
        Some(overlay) => {
            config.extend(overlay);
        },
        None => {
            assert(config.model() + own_entries =~= config.model());
        },
    }
    assert forall|key: Seq<char>| #[trigger]
        config.spec_get(key) == match lookup_in(own_entries, key) {
            Some(value) => Some(value),
            None => match lookup_in(shared_entries, key) {
                Some(value) => Some(value),
                None => lookup_in(default_entries(), key),
            },
        } by {
        lemma_lookup_in_concatenation(default_entries() + shared_entries, own_entries, key);
        lemma_lookup_in_concatenation(default_entries(), shared_entries, key);
    }
    config
}

/// A name that occurs in a list has a value there.
pub proof fn lemma_lookup_finds_entry(entries: Seq<(Seq<char>, Seq<char>)>, i: int)
    requires
        0 <= i < entries.len(),
    ensures
        lookup_in(entries, entries[i].0) is Some,
    decreases entries.len(),
{
    if entries.last().0 != entries[i].0 {
        lemma_lookup_finds_entry(entries.drop_last(), i);
    }
}

/// Whatever the configuration files hold, every name that has a default has
/// a value in the session's configuration.
pub proof fn lemma_defaults_are_always_set(
    shared: Seq<(Seq<char>, Seq<char>)>,
    own: Seq<(Seq<char>, Seq<char>)>,
    i: int,
)
    requires
        0 <= i < default_entries().len(),
    ensures
        lookup_in(default_entries() + shared + own, default_entries()[i].0) is Some,
{
    let key = default_entries()[i].0;
    lemma_lookup_finds_entry(default_entries(), i);
    lemma_lookup_in_concatenation(default_entries(), shared, key);
    lemma_lookup_in_concatenation(default_entries() + shared, own, key);
}

} // verus!
