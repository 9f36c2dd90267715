use vstd::prelude::*;
use vstd::slice::slice_index_get;
use vstd::string::StringExecFns;

use crate::error::Error;
use crate::format::{format_text, lemma_format_text_nul_free, OutputFormat};
use crate::log_level::{lemma_log_level_text_nul_free, log_level_text, LogLevel};
use crate::text::{lemma_ascii_nul_free, lemma_nul_free_concat, nul_free, str_nul_free};

verus! {

/// One configuration option for the native engine.
///
/// The well-known options each have a variant; `Custom` is the escape hatch
/// that carries an arbitrary key with an optional value.
#[derive(Debug, Clone, PartialEq, Eq)]
pub enum Arg {
    /// `--config-file=<value>`
    ConfigFilePath(String),
    /// `--log-level=<value>`
    LogLevel(LogLevel),
    /// `--output-format=<value>`
    OutputFormat(OutputFormat),
    /// `-n`
    MultiQuery,
    /// A custom argument: a key with an optional value.
    ///
    /// `Custom("path", Some("/tmp/data"))` encodes as `--path=/tmp/data`;
    /// `Custom("--multiline", None)` encodes as the key text alone.
    Custom(String, Option<String>),
}

/// The exact argument text an `Arg` encodes to.
pub open spec fn arg_text(a: Arg) -> Seq<char> {
    match a {
        Arg::ConfigFilePath(v) => "--config-file="@ + v@,
        Arg::LogLevel(l) => "--log-level="@ + log_level_text(l),
        Arg::OutputFormat(f) => "--output-format="@ + format_text(f),
        Arg::MultiQuery => "-n"@,
        Arg::Custom(k, ov) => match ov {
            None => k@,
            Some(v) => "--"@ + k@ + "="@ + v@,
        },
    }
}

/// An argument can be encoded exactly when none of its caller-supplied text
/// carries an embedded terminator byte.
pub open spec fn arg_ok(a: Arg) -> bool {
    match a {
        Arg::ConfigFilePath(v) => nul_free(v@),
        Arg::LogLevel(_) => true,
        Arg::OutputFormat(_) => true,
        Arg::MultiQuery => true,
        Arg::Custom(k, ov) => match ov {
            None => nul_free(k@),
            Some(v) => nul_free(k@) && nul_free(v@),
        },
    }
}

/// The fixed pieces of argument syntax are ASCII without NUL, so only the
/// caller-supplied text can make encoding fail.
proof fn lemma_glue_nul_free()
    ensures
        nul_free("--config-file="@),
        nul_free("--log-level="@),
        nul_free("--output-format="@),
        nul_free("-n"@),
        nul_free("--"@),
        nul_free("="@),
        nul_free("clickhouse"@),
        nul_free("--path="@),
        nul_free("--query="@),
{
    reveal_strlit("--config-file=");
    reveal_strlit("--log-level=");
    reveal_strlit("--output-format=");
    reveal_strlit("-n");
    reveal_strlit("--");
    reveal_strlit("=");
    reveal_strlit("clickhouse");
    reveal_strlit("--path=");
    reveal_strlit("--query=");
    lemma_ascii_nul_free("--config-file="@);
    lemma_ascii_nul_free("--log-level="@);
    lemma_ascii_nul_free("--output-format="@);
    lemma_ascii_nul_free("-n"@);
    lemma_ascii_nul_free("--"@);
    lemma_ascii_nul_free("="@);
    lemma_ascii_nul_free("clickhouse"@);
    lemma_ascii_nul_free("--path="@);
    lemma_ascii_nul_free("--query="@);
}

/// A well-formed argument encodes to NUL-free text, so it can always be
/// handed to the native boundary as a terminator-delimited string.
pub proof fn lemma_arg_text_nul_free(a: Arg)
    requires
        arg_ok(a),
    ensures
        nul_free(arg_text(a)),
{
    lemma_glue_nul_free();
    match a {
        Arg::ConfigFilePath(v) => {
            lemma_nul_free_concat("--config-file="@, v@);
        }
        Arg::LogLevel(l) => {
            lemma_log_level_text_nul_free(l);
            lemma_nul_free_concat("--log-level="@, log_level_text(l));
        }
        Arg::OutputFormat(f) => {
            lemma_format_text_nul_free(f);
            lemma_nul_free_concat("--output-format="@, format_text(f));
        }
        Arg::MultiQuery => {
        }
        Arg::Custom(k, ov) => {
            match ov {
                None => {
                }
                Some(v) => {
                    lemma_nul_free_concat("--"@, k@);
                    lemma_nul_free_concat("--"@ + k@, "="@);
                    lemma_nul_free_concat("--"@ + k@ + "="@, v@);
                }
            }
        }
    }
}

impl Arg {
    /// Encode this argument as the text the native engine expects, or fail
    /// with `EncodingError` if caller-supplied text carries a NUL byte.
    pub fn to_arg_string(&self) -> (r: Result<String, Error>)
        ensures
            r is Ok <==> arg_ok(*self),
            r is Err ==> r == Err::<String, Error>(Error::EncodingError),
            r is Ok ==> r.unwrap()@ == arg_text(*self),
            r is Ok ==> nul_free(r.unwrap()@),
    {
        proof {
            if arg_ok(*self) {
                lemma_arg_text_nul_free(*self);
            }
        }
        match self {
            Arg::ConfigFilePath(v) => {
                if str_nul_free(v.as_str()) {
                    Ok(String::from_str("--config-file=").concat(v.as_str()))
                } else {
                    Err(Error::EncodingError)
                }
            }
            Arg::LogLevel(l) => Ok(String::from_str("--log-level=").concat(l.as_str())),
            Arg::OutputFormat(f) => Ok(String::from_str("--output-format=").concat(f.as_str())),
            Arg::MultiQuery => Ok(String::from_str("-n")),
            Arg::Custom(k, ov) => match ov {
                None => {
                    if str_nul_free(k.as_str()) {
                        Ok(String::from_str(k.as_str()))
                    } else {
                        Err(Error::EncodingError)
                    }
                }
                Some(v) => {
                    if str_nul_free(k.as_str()) && str_nul_free(v.as_str()) {
                        Ok(
                            String::from_str("--").concat(k.as_str()).concat("=").concat(
                                v.as_str(),
                            ),
                        )
                    } else {
                        Err(Error::EncodingError)
                    }
                }
            },
        }
    }

    /// The output format this argument selects, if it is the format option.
    pub fn as_output_format(&self) -> (r: Option<OutputFormat>)
        ensures
            r == spec_as_output_format(*self),
    {
        match self {
            Arg::OutputFormat(f) => Some(*f),
            _ => None,
        }
    }
}

/// What `as_output_format` returns.
pub open spec fn spec_as_output_format(a: Arg) -> Option<OutputFormat> {
    match a {
        Arg::OutputFormat(f) => Some(f),
        _ => None,
    }
}

/// The first output format among `args`, if any; the native engine lets a
/// later duplicate flag override an earlier one, but the session layer keys
/// its choice off the first occurrence.
pub open spec fn first_output_format(args: Seq<Arg>) -> Option<OutputFormat>
    decreases args.len(),
{
    if args.len() == 0 {
        None
    } else if spec_as_output_format(args[0]) is Some {
        spec_as_output_format(args[0])
    } else {
        first_output_format(args.drop_first())
    }
}

/// The format a call with the given optional arguments runs under, when the
/// fallback is `default`: the first format argument if one is present.
pub open spec fn spec_effective_format(args: Option<Seq<Arg>>, default: OutputFormat) -> OutputFormat {
    match args {
        None => default,
        Some(s) => match first_output_format(s) {
            Some(f) => f,
            None => default,
        },
    }
}

/// Find the first output-format argument in a slice.
pub(crate) fn first_format_in(args: &[Arg]) -> (r: Option<OutputFormat>)
    ensures
        r == first_output_format(args@),
{
    let mut i: usize = 0;
    proof {
        assert(args@.skip(0) =~= args@);
    }
    while i < args.len()
        invariant
            0 <= i <= args@.len(),
            first_output_format(args@) == first_output_format(args@.skip(i as int)),
        decreases args@.len() - i,
    {
        let r = slice_index_get(args, i).as_output_format();
        proof {
            assert(args@.skip(i as int)[0] == args@[i as int]);
            assert(args@.skip(i as int).drop_first() =~= args@.skip(i as int + 1));
        }
        match r {
            Some(f) => {
                return Some(f);
            }
            None => {
                i = i + 1;
            }
        }
    }
    proof {
        assert(args@.skip(i as int) =~= Seq::<Arg>::empty());
    }
    None
}

/// The output format a one-off call runs under: the first format found among
/// the caller's arguments, else the engine's default, `TabSeparated`.
pub fn extract_output_format(args: Option<&[Arg]>) -> (r: OutputFormat)
    ensures
        args is None ==> r == OutputFormat::TabSeparated,
        args is Some ==> r == spec_effective_format(
            Some(args.unwrap()@),
            OutputFormat::TabSeparated,
        ),
{
    match args {
        None => OutputFormat::TabSeparated,
        Some(s) => match first_format_in(s) {
            Some(f) => f,
            None => OutputFormat::TabSeparated,
        },
    }
}

/// Every argument of the sequence can be encoded.
pub open spec fn args_ok(args: Seq<Arg>) -> bool {
    forall|i: int| 0 <= i < args.len() ==> arg_ok(#[trigger] args[i])
}

/// Encode a sequence of arguments in order.
///
/// Encoding preserves the relative order of the caller's entries: the native
/// engine parses its argv sequentially and a later duplicate flag overrides
/// an earlier one, which callers rely on to override defaults.
pub fn encode_args(args: &[Arg]) -> (r: Result<Vec<String>, Error>)
    ensures
        r is Ok <==> args_ok(args@),
        r is Err ==> r == Err::<Vec<String>, Error>(Error::EncodingError),
        r is Ok ==> r.unwrap()@.len() == args@.len(),
        r is Ok ==> forall|i: int|
            0 <= i < args@.len() ==> (#[trigger] r.unwrap()@[i])@ == arg_text(args@[i]),
        r is Ok ==> forall|i: int| 0 <= i < args@.len() ==> nul_free((#[trigger] r.unwrap()@[i])@),
{
    let mut out: Vec<String> = Vec::new();
    let mut i: usize = 0;
    while i < args.len()
        invariant
            0 <= i <= args@.len(),
            out@.len() == i,
            forall|j: int| 0 <= j < i ==> arg_ok(#[trigger] args@[j]),
            forall|j: int| 0 <= j < i ==> (#[trigger] out@[j])@ == arg_text(args@[j]),
            forall|j: int| 0 <= j < i ==> nul_free((#[trigger] out@[j])@),
        decreases args@.len() - i,
    {
        match slice_index_get(args, i).to_arg_string() {
            Ok(s) => {
                out.push(s);
                i = i + 1;
            }
            Err(e) => {
                return Err(e);
            }
        }
    }
    Ok(out)
}

/// Build the argv for a one-off (stateless) native call: the program token,
/// the caller's arguments in order, and `--query=<text>` last.
pub fn stateless_argv(query: &str, args: &[Arg]) -> (r: Result<Vec<String>, Error>)
    ensures
        r is Ok <==> args_ok(args@) && nul_free(query@),
        r is Err ==> r == Err::<Vec<String>, Error>(Error::EncodingError),
        r is Ok ==> ({
            let v = r.unwrap()@;
            &&& v.len() == args@.len() + 2
            &&& v[0]@ == "clickhouse"@
            &&& forall|i: int| 0 <= i < args@.len() ==> (#[trigger] v[i + 1])@ == arg_text(args@[i])
            &&& v[v.len() - 1]@ == "--query="@ + query@
            &&& forall|i: int| 0 <= i < v.len() ==> nul_free((#[trigger] v[i])@)
        }),
{
    if !str_nul_free(query) {
        return Err(Error::EncodingError);
    }
    let mut encoded = encode_args(args)?;
    let mut v: Vec<String> = Vec::new();
    v.push(String::from_str("clickhouse"));
    v.append(&mut encoded);
    v.push(String::from_str("--query=").concat(query));
    proof {
        lemma_glue_nul_free();
        lemma_nul_free_concat("--query="@, query@);
    }
    Ok(v)
}

/// Build the argv for a session-style connect: the program token, the
/// `--path=<dir>` element injected right after it, then the caller's
/// arguments in order.
pub fn session_argv(path: &str, args: &[Arg]) -> (r: Result<Vec<String>, Error>)
    ensures
        r is Ok <==> args_ok(args@) && nul_free(path@),
        r is Err ==> r == Err::<Vec<String>, Error>(Error::EncodingError),
        r is Ok ==> ({
            let v = r.unwrap()@;
            &&& v.len() == args@.len() + 2
            &&& v[0]@ == "clickhouse"@
            &&& v[1]@ == "--path="@ + path@
            &&& forall|i: int| 0 <= i < args@.len() ==> (#[trigger] v[i + 2])@ == arg_text(args@[i])
            &&& forall|i: int| 0 <= i < v.len() ==> nul_free((#[trigger] v[i])@)
        }),
{
    if !str_nul_free(path) {
        return Err(Error::EncodingError);
    }
    let mut encoded = encode_args(args)?;
    let mut v: Vec<String> = Vec::new();
    v.push(String::from_str("clickhouse"));
    v.push(String::from_str("--path=").concat(path));
    v.append(&mut encoded);
    proof {
        lemma_glue_nul_free();
        lemma_nul_free_concat("--path="@, path@);
    }
    Ok(v)
}

} // verus!
