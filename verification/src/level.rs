//! Ordered logging severities with canonical textual and numeric forms.

use vstd::prelude::*;
use vstd::string::StrSliceExecFns;

verus! {

/// Logging severities modelled after the syslog levels.  The numeric weights
/// (10 ... 60) keep the usual `TRACE <= DEBUG <= INFO <= ...` ordering, so two
/// levels can be compared through [`Level::value`].
#[derive(Debug, Clone, Copy, PartialEq, Eq, Structural, PartialOrd, Ord, Hash)]
pub enum Level {
    Trace,
    Debug,
    Info,
    Warn,
    Error,
    Fatal,
}

impl Level {
    /// The fixed numeric weight of a severity.
    pub open spec fn spec_value(self) -> u8 {
        match self {
            Level::Trace => 10,
            Level::Debug => 20,
            Level::Info => 30,
            Level::Warn => 40,
            Level::Error => 50,
            Level::Fatal => 60,
        }
    }

    /// The canonical upper-case name of a severity.
    pub open spec fn spec_str(self) -> Seq<char> {
        match self {
            Level::Trace => "TRACE"@,
            Level::Debug => "DEBUG"@,
            Level::Info => "INFO"@,
            Level::Warn => "WARN"@,
            Level::Error => "ERROR"@,
            Level::Fatal => "FATAL"@,
        }
    }

    pub fn value(&self) -> (v: u8)
        ensures
            v == self.spec_value(),
    {
        match self {
            Level::Trace => 10,
            Level::Debug => 20,
            Level::Info => 30,
            Level::Warn => 40,
            Level::Error => 50,
            Level::Fatal => 60,
        }
    }

    pub fn as_str(&self) -> (s: &'static str)
        ensures
            s@ == self.spec_str(),
    {
        match self {
            Level::Trace => "TRACE",
            Level::Debug => "DEBUG",
            Level::Info => "INFO",
            Level::Warn => "WARN",
            Level::Error => "ERROR",
            Level::Fatal => "FATAL",
        }
    }

    /// Parses a severity from its canonical name, case-insensitively; every
    /// other input is rejected with `None`.
    pub fn from_str(s: &str) -> (r: Option<Level>)
        ensures
            r == spec_level_from_chars(s@),
    {
        if eq_ignore_ascii_case(s, "TRACE") {
            Some(Level::Trace)
        } else if eq_ignore_ascii_case(s, "DEBUG") {
            Some(Level::Debug)
        } else if eq_ignore_ascii_case(s, "INFO") {
            Some(Level::Info)
        } else if eq_ignore_ascii_case(s, "WARN") {
            Some(Level::Warn)
        } else if eq_ignore_ascii_case(s, "ERROR") {
            Some(Level::Error)
        } else if eq_ignore_ascii_case(s, "FATAL") {
            Some(Level::Fatal)
        } else {
            None
        }
    }
}

/// ASCII upper-case folding of one character; every other character is kept.
pub open spec fn spec_upper_char(c: char) -> char {
    if 'a' <= c && c <= 'z' {
        ((c as u8) - 32) as char
    } else {
        c
    }
}

/// ASCII upper-case folding of a whole character sequence.
pub open spec fn spec_upper_chars(s: Seq<char>) -> Seq<char> {
    s.map_values(|c: char| spec_upper_char(c))
}

/// The severity whose canonical name matches `s` case-insensitively, if any.
pub open spec fn spec_level_from_chars(s: Seq<char>) -> Option<Level> {
    if spec_upper_chars(s) == "TRACE"@ {
        Some(Level::Trace)
    } else if spec_upper_chars(s) == "DEBUG"@ {
        Some(Level::Debug)
    } else if spec_upper_chars(s) == "INFO"@ {
        Some(Level::Info)
    } else if spec_upper_chars(s) == "WARN"@ {
        Some(Level::Warn)
    } else if spec_upper_chars(s) == "ERROR"@ {
        Some(Level::Error)
    } else if spec_upper_chars(s) == "FATAL"@ {
        Some(Level::Fatal)
    } else {
        None
    }
}

/// The level-to-name mapping is bijective: parsing a level's canonical name
/// gives back exactly that level, for each of the six levels.
pub proof fn lemma_level_string_round_trip(l: Level)
    ensures
        spec_level_from_chars(l.spec_str()) == Some(l),
{
    reveal_strlit("TRACE");
    reveal_strlit("DEBUG");
    reveal_strlit("INFO");
    reveal_strlit("WARN");
    reveal_strlit("ERROR");
    reveal_strlit("FATAL");
    assert(spec_upper_chars("TRACE"@) =~= "TRACE"@);
    assert(spec_upper_chars("DEBUG"@) =~= "DEBUG"@);
    assert(spec_upper_chars("INFO"@) =~= "INFO"@);
    assert(spec_upper_chars("WARN"@) =~= "WARN"@);
    assert(spec_upper_chars("ERROR"@) =~= "ERROR"@);
    assert(spec_upper_chars("FATAL"@) =~= "FATAL"@);
    assert("DEBUG"@[0] != "TRACE"@[0]);
    assert("INFO"@.len() != "TRACE"@.len());
    assert("INFO"@.len() != "DEBUG"@.len());
    assert("WARN"@[0] != "TRACE"@[0]);
    assert("WARN"@[0] != "DEBUG"@[0]);
    assert("WARN"@[0] != "INFO"@[0]);
    assert("ERROR"@[0] != "TRACE"@[0]);
    assert("ERROR"@[0] != "DEBUG"@[0]);
    assert("ERROR"@.len() != "INFO"@.len());
    assert("ERROR"@.len() != "WARN"@.len());
    assert("FATAL"@[0] != "TRACE"@[0]);
    assert("FATAL"@[0] != "DEBUG"@[0]);
    assert("FATAL"@.len() != "INFO"@.len());
    assert("FATAL"@.len() != "WARN"@.len());
    assert("FATAL"@[0] != "ERROR"@[0]);
}

fn to_upper(c: char) -> (r: char)
    ensures
        r == spec_upper_char(c),
{
    if 'a' <= c && c <= 'z' {
        ((c as u8) - 32) as char
    } else {
        c
    }
}

/// Whether the ASCII upper-case folding of `s` is exactly `t`.
fn eq_ignore_ascii_case(s: &str, t: &str) -> (r: bool)
    ensures
        r == (spec_upper_chars(s@) == t@),
{
    let n = s.unicode_len();
    if n != t.unicode_len() {
        assert(spec_upper_chars(s@).len() == s@.len());
        return false;
    }
    let mut i: usize = 0;
    while i < n
        invariant
            n == s@.len(),
            n == t@.len(),
            i <= n,
            forall|j: int| 0 <= j < i ==> spec_upper_chars(s@)[j] == t@[j],
        decreases n - i,
    {
        let c = to_upper(s.get_char(i));
        if c != t.get_char(i) {
            assert(spec_upper_chars(s@)[i as int] != t@[i as int]);
            return false;
        }
        i = i + 1;
    }
    assert(spec_upper_chars(s@) =~= t@);
    true
}

} // verus!
