//! Report format selection and timestamp rendering for stored results.
//! The report bodies themselves are rendered outside the verified core.

use vstd::prelude::*;

use crate::util::{
    spec_dec, spec_lower, spec_truncate, str_eq_ignore_ascii_case, truncate_chars,
    u64_to_dec_string,
};

verus! {

/// Report output format.
#[derive(Clone, Copy, Debug, PartialEq, Eq, Structural)]
pub enum ReportFormat {
    Text,
    Markdown,
    Html,
}

impl ReportFormat {
    /// The format a name selects, after ASCII lower-casing.
    pub open spec fn spec_of_str(s: Seq<char>) -> Option<ReportFormat> {
        let l = spec_lower(s);
        if l == "text"@ || l == "txt"@ {
            Some(ReportFormat::Text)
        } else if l == "markdown"@ || l == "md"@ {
            Some(ReportFormat::Markdown)
        } else if l == "html"@ || l == "htm"@ {
            Some(ReportFormat::Html)
        } else {
            None
        }
    }

    /// Parse from string, case-insensitively.
    pub fn from_str(s: &str) -> (r: Option<ReportFormat>)
        ensures
            r == ReportFormat::spec_of_str(s@),
    {
        proof {
            reveal_strlit("text");
            reveal_strlit("txt");
            reveal_strlit("markdown");
            reveal_strlit("md");
            reveal_strlit("html");
            reveal_strlit("htm");
            assert(spec_lower("text"@) =~= "text"@);
            assert(spec_lower("txt"@) =~= "txt"@);
            assert(spec_lower("markdown"@) =~= "markdown"@);
            assert(spec_lower("md"@) =~= "md"@);
            assert(spec_lower("html"@) =~= "html"@);
            assert(spec_lower("htm"@) =~= "htm"@);
        }
        if str_eq_ignore_ascii_case(s, "text") || str_eq_ignore_ascii_case(s, "txt") {
            Some(ReportFormat::Text)
        } else if str_eq_ignore_ascii_case(s, "markdown") || str_eq_ignore_ascii_case(s, "md") {
            Some(ReportFormat::Markdown)
        } else if str_eq_ignore_ascii_case(s, "html") || str_eq_ignore_ascii_case(s, "htm") {
            Some(ReportFormat::Html)
        } else {
            None
        }
    }

    /// The file extension of each format.
    pub open spec fn spec_extension(&self) -> Seq<char> {
        match self {
            ReportFormat::Text => "txt"@,
            ReportFormat::Markdown => "md"@,
            ReportFormat::Html => "html"@,
        }
    }

    pub fn extension(&self) -> (r: &'static str)
        ensures
            r@ == self.spec_extension(),
    {
        match self {
            ReportFormat::Text => "txt",
            ReportFormat::Markdown => "md",
            ReportFormat::Html => "html",
        }
    }
}

/// Shorten a name to at most `max_len` characters for table display;
/// longer names keep their head and gain a three-dot ellipsis.
pub fn truncate(s: &str, max_len: usize) -> (r: String)
    requires
        max_len >= 3,
    ensures
        r@ == spec_truncate(s@, max_len as int),
{
    truncate_chars(s, max_len)
}

/// A calendar date.
pub struct CivilDate {
    pub year: u64,
    pub month: u64,
    pub day: u64,
}

/// The civil date of a day count since the Unix epoch, by the standard
/// era-based conversion; the final clamps never fire for real dates and
/// only make the definition total.
pub open spec fn spec_civil_of_days(z: int) -> (int, int, int) {
    let za = z + 719468;
    let era = za / 146097;
    let doe = za % 146097;
    let yoe = (doe - doe / 1460 + doe / 36524 - doe / 146096) / 365;
    let y = yoe + era * 400;
    let doy = doe - (365 * yoe + yoe / 4 - yoe / 100);
    let mp = (5 * doy + 2) / 153;
    let d0 = doy - (153 * mp + 2) / 5 + 1;
    let d = if d0 < 1 {
        1int
    } else if d0 > 31 {
        31int
    } else {
        d0
    };
    let m = if mp < 10 {
        mp + 3
    } else {
        mp - 9
    };
    let m1 = if m < 1 {
        1int
    } else if m > 12 {
        12int
    } else {
        m
    };
    let y1 = if m1 <= 2 {
        y + 1
    } else {
        y
    };
    (y1, m1, d)
}

/// The civil date a day count since the epoch falls on.
pub fn civil_of_days(days: u64) -> (r: CivilDate)
    requires
        days <= 0xFFFF_FFFF,
    ensures
        ({
            let (y, m, d) = spec_civil_of_days(days as int);
            r.year as int == y && r.month as int == m && r.day as int == d
        }),
{
    let za: u64 = days + 719468;
    let era: u64 = za / 146097;
    let doe: u64 = za % 146097;
    let yoe: u64 = (doe - doe / 1460 + doe / 36524 - doe / 146096) / 365;
    let y: u64 = yoe + era * 400;
    let doy: u64 = doe - (365 * yoe + yoe / 4 - yoe / 100);
    proof {
        assert(doe < 146097);
        assert(yoe <= 399) by (nonlinear_arith)
            requires
                yoe == ((doe - doe / 1460 + doe / 36524 - doe / 146096) as int) / 365,
                0 <= doe < 146097,
        ;
        assert(365 * (yoe as int) + yoe / 4 - yoe / 100 <= doe) by (nonlinear_arith)
            requires
                yoe == ((doe - doe / 1460 + doe / 36524 - doe / 146096) as int) / 365,
                0 <= doe < 146097,
        ;
    }
    let mp: u64 = (5 * doy + 2) / 153;
    let sub: u64 = (153 * mp + 2) / 5;
    let d: u64 = if doy + 1 <= sub {
        1
    } else if doy + 1 - sub > 31 {
        31
    } else {
        doy + 1 - sub
    };
    proof {
        let d0 = doy - (153 * (mp as int) + 2) / 5 + 1;
        assert(d as int == if d0 < 1 {
            1int
        } else if d0 > 31 {
            31int
        } else {
            d0
        });
    }
    let m: u64 = if mp < 10 {
        mp + 3
    } else {
        mp - 9
    };
    let m1: u64 = if m < 1 {
        1
    } else if m > 12 {
        12
    } else {
        m
    };
    let y1: u64 = if m1 <= 2 {
        y + 1
    } else {
        y
    };
    CivilDate { year: y1, month: m1, day: d }
}

/// A number in decimal, left-padded with one zero to at least two digits.
pub open spec fn spec_pad2(n: int) -> Seq<char> {
    if n < 10 {
        "0"@ + spec_dec(n)
    } else {
        spec_dec(n)
    }
}

/// Render a number left-padded to two digits.
pub fn pad2(n: u64) -> (r: String)
    ensures
        r@ == spec_pad2(n as int),
{
    if n < 10 {
        let mut s = String::from_str("0");
        let d = u64_to_dec_string(n);
        s.append(d.as_str());
        s
    } else {
        u64_to_dec_string(n)
    }
}

/// The timestamp line a report prints for an epoch-second instant:
/// year-month-day, the time of day, and the UTC marker.
pub open spec fn spec_datetime(epoch_secs: int) -> Seq<char> {
    let days = epoch_secs / 86400;
    let rem = epoch_secs % 86400;
    let (y, m, d) = spec_civil_of_days(days);
    spec_dec(y) + "-"@ + spec_pad2(m) + "-"@ + spec_pad2(d) + " "@ + spec_pad2(rem / 3600) + ":"@
        + spec_pad2((rem % 3600) / 60) + ":"@ + spec_pad2(rem % 60) + " UTC"@
}

/// Format an epoch-second instant as a UTC timestamp for reports.
pub fn format_datetime(epoch_secs: u64) -> (r: String)
    requires
        epoch_secs <= 0xFFFF_FFFF * 86400,
    ensures
        r@ == spec_datetime(epoch_secs as int),
{
    let days = epoch_secs / 86400;
    let rem = epoch_secs % 86400;
    let date = civil_of_days(days);
    let mut s = u64_to_dec_string(date.year);
    s.append("-");
    let mm = pad2(date.month);
    s.append(mm.as_str());
    s.append("-");
    let dd = pad2(date.day);
    s.append(dd.as_str());
    s.append(" ");
    let hh = pad2(rem / 3600);
    s.append(hh.as_str());
    s.append(":");
    let mi = pad2((rem % 3600) / 60);
    s.append(mi.as_str());
    s.append(":");
    let ss = pad2(rem % 60);
    s.append(ss.as_str());
    s.append(" UTC");
    s
}

} // verus!
