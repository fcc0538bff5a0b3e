//! Loading the configuration: look each schema field up in an environment
//! snapshot, fall back to its declared default, parse the string form into
//! the field's type, and report a descriptive error when that fails.

use vstd::prelude::*;
use vstd::string::StringExecFns;
use crate::level::{Level, spec_parse_level, parse_level, spec_lower, lemma_parse_level_names, lemma_parse_level_variants};

verus! {

/// A snapshot of the process environment: key/value pairs of strings.
pub struct Env {
    pub pairs: Vec<(String, String)>,
}

impl View for Env {
    type V = Seq<(String, String)>;

    open spec fn view(&self) -> Seq<(String, String)> {
        self.pairs@
    }
}

/// The value bound to `key` among `pairs[i..]`: the first match wins.
pub open spec fn spec_lookup_from(
    pairs: Seq<(String, String)>,
    key: Seq<char>,
    i: int,
) -> Option<Seq<char>>
    decreases pairs.len() - i,
{
    if i < 0 || i >= pairs.len() {
        None
    } else if pairs[i].0@ == key {
        Some(pairs[i].1@)
    } else {
        spec_lookup_from(pairs, key, i + 1)
    }
}

/// The value bound to `key` in the snapshot, if any.
pub open spec fn spec_lookup(pairs: Seq<(String, String)>, key: Seq<char>) -> Option<Seq<char>> {
    spec_lookup_from(pairs, key, 0)
}

/// Character-for-character equality of two strings.
fn str_eq(a: &str, b: &str) -> (r: bool)
    ensures
        r == (a@ == b@),
{
    let n: usize = a.unicode_len();
    if n != b.unicode_len() {
        return false;
    }
    let mut i: usize = 0;
    while i < n
        invariant
            n == a@.len(),
            n == b@.len(),
            0 <= i <= n,
            forall|j: int| 0 <= j < i ==> a@[j] == b@[j],
        decreases n - i,
    {
        if a.get_char(i) != b.get_char(i) {
            return false;
        }
        i += 1;
    }
    proof {
        assert(a@ =~= b@);
    }
    true
}

impl Env {
    /// Look `key` up in the snapshot; reading changes nothing.
    pub fn lookup<'a>(&'a self, key: &str) -> (r: Option<&'a str>)
        ensures
            match r {
                Some(v) => spec_lookup(self@, key@) == Some(v@),
                None => spec_lookup(self@, key@) is None,
            },
    {
        let n: usize = self.pairs.len();
        let mut i: usize = 0;
        while i < n
            invariant
                n == self.pairs@.len(),
                0 <= i <= n,
                spec_lookup(self@, key@) == spec_lookup_from(self@, key@, i as int),
            decreases n - i,
        {
            if str_eq(self.pairs[i].0.as_str(), key) {
                return Some(self.pairs[i].1.as_str());
            }
            i += 1;
        }
        None
    }
}

/// The materialized configuration: immutable, every field populated.
#[derive(Clone, Copy, Debug, PartialEq, Eq, Structural)]
pub struct Conf {
    pub log_level: Level,
}

/// Why loading failed; each variant names the offending variable.
#[derive(Debug, PartialEq, Eq)]
pub enum ConfError {
    /// The variable was not set and its field declares no default.
    MissingRequiredValue { var: String },
    /// The variable's value names no recognized variant of the target type.
    InvalidFormat { var: String, value: String },
}

/// The message of an error: contextual text, then the variable and the cause.
pub open spec fn spec_message(e: ConfError) -> Seq<char> {
    match e {
        ConfError::MissingRequiredValue { var } => "Failed to parse environment variable(s): "@
            + var@ + " is not set and has no default"@,
        ConfError::InvalidFormat { var, value } => "Failed to parse environment variable(s): "@
            + var@ + " has the unrecognized value `"@ + value@ + "`"@,
    }
}

impl ConfError {
    /// A human-readable description naming the offending variable.
    pub fn message(&self) -> (r: String)
        ensures
            r@ == spec_message(*self),
    {
        match self {
            ConfError::MissingRequiredValue { var } => {
                let mut m = "Failed to parse environment variable(s): ".to_owned();
                m.append(var.as_str());
                m.append(" is not set and has no default");
                m
            },
            ConfError::InvalidFormat { var, value } => {
                let mut m = "Failed to parse environment variable(s): ".to_owned();
                m.append(var.as_str());
                m.append(" has the unrecognized value `");
                m.append(value.as_str());
                m.append("`");
                m
            },
        }
    }
}

/// Whether `sub` occurs contiguously inside `s`.
pub open spec fn spec_contains(s: Seq<char>, sub: Seq<char>) -> bool {
    exists|i: int|
        0 <= i && i + sub.len() <= s.len() && #[trigger] s.subrange(i, i + sub.len() as int)
            == sub
}

/// The message of every error mentions the offending variable's name.
pub proof fn lemma_message_names_var(e: ConfError)
    ensures
        e matches ConfError::MissingRequiredValue { var } ==> spec_contains(
            spec_message(e),
            var@,
        ),
        e matches ConfError::InvalidFormat { var, value } ==> spec_contains(
            spec_message(e),
            var@,
        ),
{
    let pre = "Failed to parse environment variable(s): "@;
    match e {
        ConfError::MissingRequiredValue { var } => {
            let m = spec_message(e);
            assert(m.subrange(pre.len() as int, pre.len() + var@.len() as int) =~= var@);
        },
        ConfError::InvalidFormat { var, value } => {
            let m = spec_message(e);
            assert(m.subrange(pre.len() as int, pre.len() + var@.len() as int) =~= var@);
        },
    }
}

/// The string form of one schema field: the environment value if the key is
/// set, else the declared default, else a `MissingRequiredValue` error.
pub fn field_value<'a>(env: &'a Env, key: &'a str, default: Option<&'a str>) -> (r: Result<
    &'a str,
    ConfError,
>)
    ensures
        match spec_lookup(env@, key@) {
            Some(v) => r matches Ok(s) && s@ == v,
            None => match default {
                Some(d) => r matches Ok(s) && s@ == d@,
                None => r matches Err(e) && (e matches ConfError::MissingRequiredValue { var }
                    && var@ == key@),
            },
        },
{
    match env.lookup(key) {
        Some(v) => Ok(v),
        None => match default {
            Some(d) => Ok(d),
            None => Err(ConfError::MissingRequiredValue { var: key.to_owned() }),
        },
    }
}

/// The environment value that the schema reads: `LOG_LEVEL`.
pub open spec fn spec_log_level_value(pairs: Seq<(String, String)>) -> Option<Seq<char>> {
    spec_lookup(pairs, "LOG_LEVEL"@)
}

/// What loading from snapshot `pairs` must return: the parsed `LOG_LEVEL`
/// value, `info` when the variable is unset, and an `InvalidFormat` error
/// carrying the variable's name and its value when it parses to no level.
pub open spec fn init_result_matches(
    pairs: Seq<(String, String)>,
    r: Result<Conf, ConfError>,
) -> bool {
    match spec_log_level_value(pairs) {
        None => r == Ok::<Conf, ConfError>(Conf { log_level: Level::Info }),
        Some(v) => match spec_parse_level(v) {
            Some(l) => r == Ok::<Conf, ConfError>(Conf { log_level: l }),
            None => r matches Err(e) && (e matches ConfError::InvalidFormat { var, value }
                && var@ == "LOG_LEVEL"@ && value@ == v),
        },
    }
}

/// Load the configuration from an environment snapshot: parse `LOG_LEVEL`
/// (default `info`) into a fully populated `Conf`, or fail with an error
/// naming the variable. No partial configuration is ever returned.
pub fn init(env: &Env) -> (r: Result<Conf, ConfError>)
    ensures
        init_result_matches(env@, r),
{
    let raw = match field_value(env, "LOG_LEVEL", Some("info")) {
        Ok(s) => s,
        Err(e) => {
            return Err(e);
        },
    };
    proof {
        lemma_parse_level_names();
    }
    match parse_level(raw) {
        Some(l) => Ok(Conf { log_level: l }),
        None => Err(
            ConfError::InvalidFormat { var: "LOG_LEVEL".to_owned(), value: raw.to_owned() },
        ),
    }
}

/// Loading is deterministic: two results of loading equal snapshots are the
/// same configuration, or errors with the same variable, value and message.
pub proof fn lemma_init_deterministic(
    pairs: Seq<(String, String)>,
    r1: Result<Conf, ConfError>,
    r2: Result<Conf, ConfError>,
)
    requires
        init_result_matches(pairs, r1),
        init_result_matches(pairs, r2),
    ensures
        r1 is Ok <==> r2 is Ok,
        r1 is Ok ==> r1 == r2,
        r1 matches Err(e1) ==> (r2 matches Err(e2) && spec_message(e1) == spec_message(e2)),
{
}

/// Loading with `LOG_LEVEL` unset yields the default level `info`; loading
/// with it set to any case variant of a canonical name yields that level.
pub proof fn lemma_init_level_variants(pairs: Seq<(String, String)>, r: Result<Conf, ConfError>)
    requires
        init_result_matches(pairs, r),
    ensures
        spec_log_level_value(pairs) is None ==> r == Ok::<Conf, ConfError>(
            Conf { log_level: Level::Info },
        ),
        spec_log_level_value(pairs) matches Some(v) ==> {
            &&& spec_lower(v) == "error"@ ==> r == Ok::<Conf, ConfError>(
                Conf { log_level: Level::Error },
            )
            &&& spec_lower(v) == "warn"@ ==> r == Ok::<Conf, ConfError>(
                Conf { log_level: Level::Warn },
            )
            &&& spec_lower(v) == "info"@ ==> r == Ok::<Conf, ConfError>(
                Conf { log_level: Level::Info },
            )
            &&& spec_lower(v) == "debug"@ ==> r == Ok::<Conf, ConfError>(
                Conf { log_level: Level::Debug },
            )
            &&& spec_lower(v) == "trace"@ ==> r == Ok::<Conf, ConfError>(
                Conf { log_level: Level::Trace },
            )
        },
{
    if let Some(v) = spec_log_level_value(pairs) {
        lemma_parse_level_variants(v);
    }
}

} // verus!
