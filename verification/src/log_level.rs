use vstd::prelude::*;
use vstd::utf8::is_ascii_chars;

use crate::text::{lemma_ascii_nul_free, nul_free};

verus! {

/// Verbosity levels accepted by the native engine's `--log-level` option.
#[derive(Debug, Clone, Copy, PartialEq, Eq, Structural)]
pub enum LogLevel {
    Trace,
    Debug,
    Info,
    Warn,
    Error,
}

/// The exact option text the native engine expects for each level.
///
/// The engine spells two of them out in full: `Info` is passed as
/// `information` and `Warn` as `warning`.
pub open spec fn log_level_text(l: LogLevel) -> Seq<char> {
    match l {
        LogLevel::Trace => "trace"@,
        LogLevel::Debug => "debug"@,
        LogLevel::Info => "information"@,
        LogLevel::Warn => "warning"@,
        LogLevel::Error => "error"@,
    }
}

impl LogLevel {
    /// The textual form handed to the native engine.
    pub fn as_str(self) -> (r: &'static str)
        ensures
            r@ == log_level_text(self),
    {
        match self {
            LogLevel::Trace => "trace",
            LogLevel::Debug => "debug",
            LogLevel::Info => "information",
            LogLevel::Warn => "warning",
            LogLevel::Error => "error",
        }
    }
}

/// Every level name is plain ASCII without a NUL byte, so encoding a
/// log-level argument can never fail.
pub proof fn lemma_log_level_text_nul_free(l: LogLevel)
    ensures
        is_ascii_chars(log_level_text(l)),
        nul_free(log_level_text(l)),
{
    reveal_strlit("trace");
    reveal_strlit("debug");
    reveal_strlit("information");
    reveal_strlit("warning");
    reveal_strlit("error");
    lemma_ascii_nul_free(log_level_text(l));
}

} // verus!
