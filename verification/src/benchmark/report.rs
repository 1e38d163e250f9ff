//! Benchmark report format selection.  The report bodies themselves are
//! rendered outside the verified core.

use vstd::prelude::*;

use crate::util::{spec_lower, str_eq_ignore_ascii_case};

verus! {

/// Report output format.
#[derive(Clone, Copy, Debug, PartialEq, Eq, Structural)]
pub enum ReportFormat {
    /// Plain text table
    Text,
    /// JSON format
    Json,
    /// Pretty-printed JSON
    JsonPretty,
    /// Markdown format
    Markdown,
    /// CSV format
    Csv,
    /// HTML format
    Html,
}

impl ReportFormat {
    /// The format a name selects, after ASCII lower-casing.
    pub open spec fn spec_of_str(s: Seq<char>) -> Option<ReportFormat> {
        let l = spec_lower(s);
        if l == "text"@ || l == "table"@ {
            Some(ReportFormat::Text)
        } else if l == "json"@ {
            Some(ReportFormat::Json)
        } else if l == "json-pretty"@ {
            Some(ReportFormat::JsonPretty)
        } else if l == "markdown"@ || l == "md"@ {
            Some(ReportFormat::Markdown)
        } else if l == "csv"@ {
            Some(ReportFormat::Csv)
        } else if l == "html"@ {
            Some(ReportFormat::Html)
        } else {
            None
        }
    }

    /// Parse from string, case-insensitively.
    pub fn from_str(s: &str) -> (r: Option<ReportFormat>)
        ensures
            r == ReportFormat::spec_of_str(s@),
    {
        proof {
            reveal_strlit("text");
            reveal_strlit("table");
            reveal_strlit("json");
            reveal_strlit("json-pretty");
            reveal_strlit("markdown");
            reveal_strlit("md");
            reveal_strlit("csv");
            reveal_strlit("html");
            assert(spec_lower("text"@) =~= "text"@);
            assert(spec_lower("table"@) =~= "table"@);
            assert(spec_lower("json"@) =~= "json"@);
            assert(spec_lower("json-pretty"@) =~= "json-pretty"@);
            assert(spec_lower("markdown"@) =~= "markdown"@);
            assert(spec_lower("md"@) =~= "md"@);
            assert(spec_lower("csv"@) =~= "csv"@);
            assert(spec_lower("html"@) =~= "html"@);
        }
        if str_eq_ignore_ascii_case(s, "text") || str_eq_ignore_ascii_case(s, "table") {
            Some(ReportFormat::Text)
        } else if str_eq_ignore_ascii_case(s, "json") {
            Some(ReportFormat::Json)
        } else if str_eq_ignore_ascii_case(s, "json-pretty") {
            Some(ReportFormat::JsonPretty)
        } else if str_eq_ignore_ascii_case(s, "markdown") || str_eq_ignore_ascii_case(s, "md") {
            Some(ReportFormat::Markdown)
        } else if str_eq_ignore_ascii_case(s, "csv") {
            Some(ReportFormat::Csv)
        } else if str_eq_ignore_ascii_case(s, "html") {
            Some(ReportFormat::Html)
        } else {
            None
        }
    }
}

} // verus!
