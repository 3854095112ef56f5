//! Log verbosity levels: a totally ordered severity classification with a
//! canonical name for each level, a validating parser, and the round-trip
//! laws between the two.

use vstd::prelude::*;
use crate::strutil::str_eq;

verus! {

/// Severity of a log record or verbosity threshold, ordered
/// `Critical < Error < Warning < Info < Debug < Trace`.
#[derive(Clone, Copy, Debug, PartialEq, Eq, Structural, Hash)]
pub enum Level {
    Critical,
    Error,
    Warning,
    Info,
    Debug,
    Trace,
}

/// Error returned when settings validation rejects an input.
#[derive(Clone, Copy, Debug, PartialEq, Eq, Structural)]
pub enum ValidationError {
    /// A verbosity string that is not one of the canonical level names.
    UnrecognizedLevel,
    /// A redaction key that occurs more than once in the key list.
    DuplicateRedactKey,
}

impl ValidationError {
    /// A human-readable description of the error.
    pub fn message(&self) -> (s: &'static str)
        ensures
            self is UnrecognizedLevel ==> s@ == "incorrect verbosity level"@,
            self is DuplicateRedactKey ==> s@ == "duplicate redaction key"@,
    {
        match self {
            ValidationError::UnrecognizedLevel => "incorrect verbosity level",
            ValidationError::DuplicateRedactKey => "duplicate redaction key",
        }
    }
}

impl Level {
    /// Numeric rank of the level in the severity order; smaller is more severe.
    pub open spec fn severity(self) -> int {
        match self {
            Level::Critical => 0,
            Level::Error => 1,
            Level::Warning => 2,
            Level::Info => 3,
            Level::Debug => 4,
            Level::Trace => 5,
        }
    }

    fn severity_index(self) -> (r: u8)
        ensures
            r as int == self.severity(),
    {
        match self {
            Level::Critical => 0,
            Level::Error => 1,
            Level::Warning => 2,
            Level::Info => 3,
            Level::Debug => 4,
            Level::Trace => 5,
        }
    }

    /// Whether `self` is at most as verbose as `other` (more or equally severe).
    pub fn le(self, other: Level) -> (r: bool)
        ensures
            r == (self.severity() <= other.severity()),
    {
        self.severity_index() <= other.severity_index()
    }

    /// The canonical name of the level: lowercase, and the only spelling
    /// that [`Level::parse`] accepts.
    pub open spec fn spec_name(self) -> Seq<char> {
        match self {
            Level::Critical => "critical"@,
            Level::Error => "error"@,
            Level::Warning => "warning"@,
            Level::Info => "info"@,
            Level::Debug => "debug"@,
            Level::Trace => "trace"@,
        }
    }

    /// Emits the canonical name of the level.
    pub fn as_str(self) -> (s: &'static str)
        ensures
            s@ == self.spec_name(),
    {
        match self {
            Level::Critical => "critical",
            Level::Error => "error",
            Level::Warning => "warning",
            Level::Info => "info",
            Level::Debug => "debug",
            Level::Trace => "trace",
        }
    }

    /// The level a string names, if any. Names are matched case-sensitively
    /// against the canonical lowercase spellings.
    pub open spec fn spec_parse(s: Seq<char>) -> Option<Level> {
        if s == "critical"@ {
            Some(Level::Critical)
        } else if s == "error"@ {
            Some(Level::Error)
        } else if s == "warning"@ {
            Some(Level::Warning)
        } else if s == "info"@ {
            Some(Level::Info)
        } else if s == "debug"@ {
            Some(Level::Debug)
        } else if s == "trace"@ {
            Some(Level::Trace)
        } else {
            None
        }
    }

    /// Parses a level name; any string that is not a canonical level name is
    /// rejected with a validation error, never defaulted.
    pub fn parse(s: &str) -> (r: Result<Level, ValidationError>)
        ensures
            match r {
                Ok(l) => Level::spec_parse(s@) == Some(l),
                Err(e) => Level::spec_parse(s@) is None && e is UnrecognizedLevel,
            },
    {
        if str_eq(s, "critical") {
            Ok(Level::Critical)
        } else if str_eq(s, "error") {
            Ok(Level::Error)
        } else if str_eq(s, "warning") {
            Ok(Level::Warning)
        } else if str_eq(s, "info") {
            Ok(Level::Info)
        } else if str_eq(s, "debug") {
            Ok(Level::Debug)
        } else if str_eq(s, "trace") {
            Ok(Level::Trace)
        } else {
            Err(ValidationError::UnrecognizedLevel)
        }
    }
}

/// Law: parsing the canonical name of a level gives back that level
/// (deserializing a serialized level is the identity).
pub proof fn lemma_level_name_parses_back(l: Level)
    ensures
        Level::spec_parse(l.spec_name()) == Some(l),
{
    reveal_strlit("critical");
    reveal_strlit("error");
    reveal_strlit("warning");
    reveal_strlit("info");
    reveal_strlit("debug");
    reveal_strlit("trace");
    assert(("critical"@).len() == 8);
    assert(("error"@).len() == 5);
    assert(("warning"@).len() == 7);
    assert(("info"@).len() == 4);
    assert(("debug"@).len() == 5);
    assert(("trace"@).len() == 5);
    assert(("error"@)[0] == 'e');
    assert(("debug"@)[0] == 'd');
    assert(("trace"@)[0] == 't');
    assert("debug"@ != "error"@);
    assert("trace"@ != "error"@);
    assert("trace"@ != "debug"@);
}

/// Law: for every string that names a level, serializing the parsed level
/// gives back exactly that string.
pub proof fn lemma_level_parse_round_trip(s: Seq<char>)
    requires
        Level::spec_parse(s) is Some,
    ensures
        Level::spec_parse(s)->Some_0.spec_name() == s,
{
}

} // verus!
