//! Output format selection and the formatter's plain-text pieces.  The
//! table and structured renderings happen outside the verified core.

use vstd::prelude::*;

use crate::models::test_result::TestResult;
use crate::util::{spec_dec, spec_lower, str_eq_ignore_ascii_case, u64_to_dec_string};

verus! {

/// Output format options.
#[derive(Clone, Copy, Debug, PartialEq, Eq, Structural)]
pub enum OutputFormat {
    Table,
    Json,
    JsonPretty,
    Csv,
    Summary,
}

impl OutputFormat {
    /// The format a name selects, after ASCII lower-casing.
    pub open spec fn spec_of_str(s: Seq<char>) -> Option<OutputFormat> {
        let l = spec_lower(s);
        if l == "table"@ {
            Some(OutputFormat::Table)
        } else if l == "json"@ {
            Some(OutputFormat::Json)
        } else if l == "json-pretty"@ || l == "jsonpretty"@ {
            Some(OutputFormat::JsonPretty)
        } else if l == "csv"@ {
            Some(OutputFormat::Csv)
        } else if l == "summary"@ {
            Some(OutputFormat::Summary)
        } else {
            None
        }
    }

    /// Parse from string, case-insensitively.
    pub fn from_str(s: &str) -> (r: Option<OutputFormat>)
        ensures
            r == OutputFormat::spec_of_str(s@),
    {
        proof {
            reveal_strlit("table");
            reveal_strlit("json");
            reveal_strlit("json-pretty");
            reveal_strlit("jsonpretty");
            reveal_strlit("csv");
            reveal_strlit("summary");
            assert(spec_lower("table"@) =~= "table"@);
            assert(spec_lower("json"@) =~= "json"@);
            assert(spec_lower("json-pretty"@) =~= "json-pretty"@);
            assert(spec_lower("jsonpretty"@) =~= "jsonpretty"@);
            assert(spec_lower("csv"@) =~= "csv"@);
            assert(spec_lower("summary"@) =~= "summary"@);
        }
        if str_eq_ignore_ascii_case(s, "table") {
            Some(OutputFormat::Table)
        } else if str_eq_ignore_ascii_case(s, "json") {
            Some(OutputFormat::Json)
        } else if str_eq_ignore_ascii_case(s, "json-pretty") || str_eq_ignore_ascii_case(
            s,
            "jsonpretty",
        ) {
            Some(OutputFormat::JsonPretty)
        } else if str_eq_ignore_ascii_case(s, "csv") {
            Some(OutputFormat::Csv)
        } else if str_eq_ignore_ascii_case(s, "summary") {
            Some(OutputFormat::Summary)
        } else {
            None
        }
    }
}

/// Result formatter settings.
#[derive(Clone, Copy, Debug)]
pub struct ResultFormatter {
    pub format: OutputFormat,
    pub colorize: bool,
}

impl ResultFormatter {
    /// A formatter for the chosen format, colorized.
    pub fn new(format: OutputFormat) -> (r: Self)
        ensures
            r.format == format,
            r.colorize == true,
    {
        ResultFormatter { format, colorize: true }
    }

    /// Switch color off.
    pub fn no_color(self) -> (r: Self)
        ensures
            r.format == self.format,
            r.colorize == false,
    {
        ResultFormatter { colorize: false, ..self }
    }
}

/// The one-line summary of a result: status marker, test name and
/// duration.
pub open spec fn spec_result_summary_line(result: TestResult) -> Seq<char> {
    result.status.spec_symbol() + " "@ + result.test_case.spec_case_name() + " ("@ + spec_dec(
        result.duration_ms as int,
    ) + "ms)"@
}

/// Format one result as its summary line.
pub fn format_result_summary(result: &TestResult) -> (r: String)
    ensures
        r@ == spec_result_summary_line(*result),
{
    let mut s = String::from_str(result.status.symbol());
    s.append(" ");
    s.append(result.test_case.name());
    s.append(" (");
    let d = u64_to_dec_string(result.duration_ms);
    s.append(d.as_str());
    s.append("ms)");
    s
}

} // verus!
