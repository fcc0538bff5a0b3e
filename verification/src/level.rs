//! The log-severity level: the one target type of the configuration schema,
//! parsed from its string form ASCII-case-insensitively.

use vstd::prelude::*;

verus! {

/// Log severity, from most to least important.
#[derive(Clone, Copy, Debug, PartialEq, Eq, Structural)]
pub enum Level {
    Error,
    Warn,
    Info,
    Debug,
    Trace,
}

/// ASCII lowercase of one character; characters outside `A..=Z` are unchanged.
pub open spec fn spec_lower_char(c: char) -> char {
    if 'A' <= c && c <= 'Z' {
        (((c as u8) + 32) as char)
    } else {
        c
    }
}

/// ASCII lowercase of a character sequence.
pub open spec fn spec_lower(s: Seq<char>) -> Seq<char> {
    s.map_values(|c: char| spec_lower_char(c))
}

/// Which level a string names, compared ASCII-case-insensitively;
/// `None` if it names none.
pub open spec fn spec_parse_level(s: Seq<char>) -> Option<Level> {
    let l = spec_lower(s);
    if l == spec_lower("error"@) {
        Some(Level::Error)
    } else if l == spec_lower("warn"@) {
        Some(Level::Warn)
    } else if l == spec_lower("info"@) {
        Some(Level::Info)
    } else if l == spec_lower("debug"@) {
        Some(Level::Debug)
    } else if l == spec_lower("trace"@) {
        Some(Level::Trace)
    } else {
        None
    }
}

/// ASCII lowercase of one character.
fn lower_char(c: char) -> (r: char)
    ensures
        r == spec_lower_char(c),
{
    if 'A' <= c && c <= 'Z' {
        ((c as u8) + 32) as char
    } else {
        c
    }
}

/// Whether `s` and `name` are equal once both are ASCII-lowercased.
fn eq_lower(s: &str, name: &str) -> (r: bool)
    ensures
        r == (spec_lower(s@) == spec_lower(name@)),
{
    let n: usize = s.unicode_len();
    if n != name.unicode_len() {
        return false;
    }
    let mut i: usize = 0;
    while i < n
        invariant
            n == s@.len(),
            n == name@.len(),
            0 <= i <= n,
            forall|j: int| 0 <= j < i ==> spec_lower_char(s@[j]) == spec_lower_char(name@[j]),
        decreases n - i,
    {
        let a = lower_char(s.get_char(i));
        let b = lower_char(name.get_char(i));
        if a != b {
            proof {
                assert(spec_lower(s@)[i as int] == spec_lower_char(s@[i as int]));
                assert(spec_lower(name@)[i as int] == spec_lower_char(name@[i as int]));
            }
            return false;
        }
        i += 1;
    }
    proof {
        assert(spec_lower(s@) =~= spec_lower(name@));
    }
    true
}

/// Lowercasing is idempotent, so which level a string names depends only on
/// its ASCII lowercase.
pub proof fn lemma_parse_level_case_insensitive(s: Seq<char>)
    ensures
        spec_parse_level(s) == spec_parse_level(spec_lower(s)),
{
    assert(spec_lower(spec_lower(s)) =~= spec_lower(s)) by {
        assert forall|i: int| 0 <= i < s.len() implies spec_lower_char(spec_lower_char(s[i]))
            == spec_lower_char(s[i]) by {
            let c = s[i];
            if 'A' <= c && c <= 'Z' {
                assert(!('A' <= (((c as u8) + 32) as char) && (((c as u8) + 32) as char) <= 'Z'));
            }
        }
    }
}

/// Each canonical level name parses to its level.
pub proof fn lemma_parse_level_names()
    ensures
        spec_parse_level("error"@) == Some(Level::Error),
        spec_parse_level("warn"@) == Some(Level::Warn),
        spec_parse_level("info"@) == Some(Level::Info),
        spec_parse_level("debug"@) == Some(Level::Debug),
        spec_parse_level("trace"@) == Some(Level::Trace),
{
    reveal_strlit("error");
    reveal_strlit("warn");
    reveal_strlit("info");
    reveal_strlit("debug");
    reveal_strlit("trace");
    assert(spec_lower("warn"@)[0] == 'w');
    assert(spec_lower("error"@)[0] == 'e');
    assert(spec_lower("info"@)[0] == 'i');
    assert(spec_lower("debug"@)[0] == 'd');
    assert(spec_lower("trace"@)[0] == 't');
}

/// A string whose ASCII lowercase is a canonical level name parses to that
/// name's level, whatever the case of its characters.
pub proof fn lemma_parse_level_variants(s: Seq<char>)
    ensures
        spec_lower(s) == "error"@ ==> spec_parse_level(s) == Some(Level::Error),
        spec_lower(s) == "warn"@ ==> spec_parse_level(s) == Some(Level::Warn),
        spec_lower(s) == "info"@ ==> spec_parse_level(s) == Some(Level::Info),
        spec_lower(s) == "debug"@ ==> spec_parse_level(s) == Some(Level::Debug),
        spec_lower(s) == "trace"@ ==> spec_parse_level(s) == Some(Level::Trace),
{
    lemma_parse_level_case_insensitive(s);
    lemma_parse_level_names();
}

/// Parse a level name, ASCII-case-insensitively.
pub fn parse_level(s: &str) -> (r: Option<Level>)
    ensures
        r == spec_parse_level(s@),
{
    if eq_lower(s, "error") {
        Some(Level::Error)
    } else if eq_lower(s, "warn") {
        Some(Level::Warn)
    } else if eq_lower(s, "info") {
        Some(Level::Info)
    } else if eq_lower(s, "debug") {
        Some(Level::Debug)
    } else if eq_lower(s, "trace") {
        Some(Level::Trace)
    } else {
        None
    }
}

} // verus!
