use vstd::prelude::*;
use vstd::utf8::is_ascii_chars;

use crate::text::{lemma_ascii_nul_free, nul_free};

verus! {

/// Output serializations the native engine can render result rows in.
///
/// The names are passed to the engine verbatim; the engine itself raises a
/// runtime failure on a name it does not recognize, so this wrapper only
/// carries the names and does not validate them further.
#[derive(Debug, Clone, Copy, PartialEq, Eq, Structural)]
pub enum OutputFormat {
    TabSeparated,
    CSV,
    CSVWithNames,
    JSON,
    JSONEachRow,
    Pretty,
    Markdown,
}

/// The exact format name the native engine expects for each variant.
pub open spec fn format_text(f: OutputFormat) -> Seq<char> {
    match f {
        OutputFormat::TabSeparated => "TabSeparated"@,
        OutputFormat::CSV => "CSV"@,
        OutputFormat::CSVWithNames => "CSVWithNames"@,
        OutputFormat::JSON => "JSON"@,
        OutputFormat::JSONEachRow => "JSONEachRow"@,
        OutputFormat::Pretty => "Pretty"@,
        OutputFormat::Markdown => "Markdown"@,
    }
}

impl OutputFormat {
    /// The format name handed to the native engine.
    pub fn as_str(self) -> (r: &'static str)
        ensures
            r@ == format_text(self),
    {
        match self {
            OutputFormat::TabSeparated => "TabSeparated",
            OutputFormat::CSV => "CSV",
            OutputFormat::CSVWithNames => "CSVWithNames",
            OutputFormat::JSON => "JSON",
            OutputFormat::JSONEachRow => "JSONEachRow",
            OutputFormat::Pretty => "Pretty",
            OutputFormat::Markdown => "Markdown",
        }
    }
}

/// Every format name is plain ASCII without a NUL byte, so encoding a format
/// argument can never fail.
pub proof fn lemma_format_text_nul_free(f: OutputFormat)
    ensures
        is_ascii_chars(format_text(f)),
        nul_free(format_text(f)),
{
    reveal_strlit("TabSeparated");
    reveal_strlit("CSV");
    reveal_strlit("CSVWithNames");
    reveal_strlit("JSON");
    reveal_strlit("JSONEachRow");
    reveal_strlit("Pretty");
    reveal_strlit("Markdown");
    lemma_ascii_nul_free(format_text(f));
}

} // verus!
