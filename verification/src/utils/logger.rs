//! Log level configuration.  Installing the subscriber happens outside the
//! verified core.

use vstd::prelude::*;

use crate::util::{spec_lower, str_eq_ignore_ascii_case};

verus! {

/// Log level configuration.
#[derive(Clone, Copy, Debug, PartialEq, Eq, Structural)]
pub enum LogLevel {
    Trace,
    Debug,
    Info,
    Warn,
    Error,
}

impl LogLevel {
    /// The level a name selects, after ASCII lower-casing; `warning` is
    /// accepted for `warn`.
    pub open spec fn spec_of_str(s: Seq<char>) -> Option<LogLevel> {
        let l = spec_lower(s);
        if l == "trace"@ {
            Some(LogLevel::Trace)
        } else if l == "debug"@ {
            Some(LogLevel::Debug)
        } else if l == "info"@ {
            Some(LogLevel::Info)
        } else if l == "warn"@ || l == "warning"@ {
            Some(LogLevel::Warn)
        } else if l == "error"@ {
            Some(LogLevel::Error)
        } else {
            None
        }
    }

    /// Parse from string, case-insensitively.
    pub fn from_str(s: &str) -> (r: Option<LogLevel>)
        ensures
            r == LogLevel::spec_of_str(s@),
    {
        proof {
            reveal_strlit("trace");
            reveal_strlit("debug");
            reveal_strlit("info");
            reveal_strlit("warn");
            reveal_strlit("warning");
            reveal_strlit("error");
            assert(spec_lower("trace"@) =~= "trace"@);
            assert(spec_lower("debug"@) =~= "debug"@);
            assert(spec_lower("info"@) =~= "info"@);
            assert(spec_lower("warn"@) =~= "warn"@);
            assert(spec_lower("warning"@) =~= "warning"@);
            assert(spec_lower("error"@) =~= "error"@);
        }
        if str_eq_ignore_ascii_case(s, "trace") {
            Some(LogLevel::Trace)
        } else if str_eq_ignore_ascii_case(s, "debug") {
            Some(LogLevel::Debug)
        } else if str_eq_ignore_ascii_case(s, "info") {
            Some(LogLevel::Info)
        } else if str_eq_ignore_ascii_case(s, "warn") || str_eq_ignore_ascii_case(s, "warning") {
            Some(LogLevel::Warn)
        } else if str_eq_ignore_ascii_case(s, "error") {
            Some(LogLevel::Error)
        } else {
            None
        }
    }
}

} // verus!
