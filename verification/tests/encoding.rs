use chdb_rust::arg::{encode_args, extract_output_format, session_argv, stateless_argv, Arg};
use chdb_rust::error::Error;
use chdb_rust::format::OutputFormat;
use chdb_rust::log_level::LogLevel;

#[test]
fn encode_each_variant_exactly() {
    assert_eq!(
        Arg::ConfigFilePath("/etc/chdb.xml".to_string()).to_arg_string(),
        Ok("--config-file=/etc/chdb.xml".to_string())
    );
    assert_eq!(
        Arg::LogLevel(LogLevel::Debug).to_arg_string(),
        Ok("--log-level=debug".to_string())
    );
    assert_eq!(
        Arg::OutputFormat(OutputFormat::JSONEachRow).to_arg_string(),
        Ok("--output-format=JSONEachRow".to_string())
    );
    assert_eq!(Arg::MultiQuery.to_arg_string(), Ok("-n".to_string()));
    assert_eq!(
        Arg::Custom("priority".to_string(), Some("1".to_string())).to_arg_string(),
        Ok("--priority=1".to_string())
    );
    assert_eq!(
        Arg::Custom("--multiline".to_string(), None).to_arg_string(),
        Ok("--multiline".to_string())
    );
}

#[test]
fn encode_preserves_caller_order() {
    let args = vec![
        Arg::Custom("priority".to_string(), Some("1".to_string())),
        Arg::LogLevel(LogLevel::Warn),
        Arg::OutputFormat(OutputFormat::CSV),
        Arg::Custom("priority".to_string(), Some("2".to_string())),
    ];
    let encoded = encode_args(&args).unwrap();
    assert_eq!(
        encoded,
        vec![
            "--priority=1".to_string(),
            "--log-level=warning".to_string(),
            "--output-format=CSV".to_string(),
            "--priority=2".to_string(),
        ]
    );
}

#[test]
fn embedded_terminator_fails_encoding() {
    assert_eq!(
        Arg::Custom("pri\0ority".to_string(), Some("1".to_string())).to_arg_string(),
        Err(Error::EncodingError)
    );
    assert_eq!(
        Arg::Custom("priority".to_string(), Some("1\0".to_string())).to_arg_string(),
        Err(Error::EncodingError)
    );
    assert_eq!(
        Arg::ConfigFilePath("/etc/\0chdb.xml".to_string()).to_arg_string(),
        Err(Error::EncodingError)
    );
    let args = vec![
        Arg::MultiQuery,
        Arg::Custom("k\0ey".to_string(), None),
    ];
    assert_eq!(encode_args(&args), Err(Error::EncodingError));
}

#[test]
fn stateless_argv_shape() {
    let args = vec![
        Arg::MultiQuery,
        Arg::OutputFormat(OutputFormat::CSV),
    ];
    let argv = stateless_argv("SELECT 1", &args).unwrap();
    assert_eq!(
        argv,
        vec![
            "clickhouse".to_string(),
            "-n".to_string(),
            "--output-format=CSV".to_string(),
            "--query=SELECT 1".to_string(),
        ]
    );
}

#[test]
fn stateless_argv_rejects_terminator_in_query() {
    let argv = stateless_argv("SELECT 1\0; DROP TABLE t", &[]);
    assert_eq!(argv, Err(Error::EncodingError));
}

#[test]
fn session_argv_injects_path_after_program_token() {
    let args = vec![Arg::LogLevel(LogLevel::Trace)];
    let argv = session_argv("/tmp/data", &args).unwrap();
    assert_eq!(
        argv,
        vec![
            "clickhouse".to_string(),
            "--path=/tmp/data".to_string(),
            "--log-level=trace".to_string(),
        ]
    );
}

#[test]
fn session_argv_rejects_terminator_in_path() {
    assert_eq!(session_argv("/tmp/\0data", &[]), Err(Error::EncodingError));
}

#[test]
fn extract_output_format_takes_first_or_default() {
    assert_eq!(extract_output_format(None), OutputFormat::TabSeparated);
    assert_eq!(
        extract_output_format(Some(&[Arg::MultiQuery])),
        OutputFormat::TabSeparated
    );
    let args = vec![
        Arg::MultiQuery,
        Arg::OutputFormat(OutputFormat::JSON),
        Arg::OutputFormat(OutputFormat::Pretty),
    ];
    assert_eq!(extract_output_format(Some(&args)), OutputFormat::JSON);
}

#[test]
fn log_level_names() {
    assert_eq!(LogLevel::Trace.as_str(), "trace");
    assert_eq!(LogLevel::Debug.as_str(), "debug");
    assert_eq!(LogLevel::Info.as_str(), "information");
    assert_eq!(LogLevel::Warn.as_str(), "warning");
    assert_eq!(LogLevel::Error.as_str(), "error");
}

#[test]
fn output_format_names() {
    assert_eq!(OutputFormat::TabSeparated.as_str(), "TabSeparated");
    assert_eq!(OutputFormat::CSV.as_str(), "CSV");
    assert_eq!(OutputFormat::CSVWithNames.as_str(), "CSVWithNames");
    assert_eq!(OutputFormat::JSON.as_str(), "JSON");
    assert_eq!(OutputFormat::JSONEachRow.as_str(), "JSONEachRow");
    assert_eq!(OutputFormat::Pretty.as_str(), "Pretty");
    assert_eq!(OutputFormat::Markdown.as_str(), "Markdown");
}
