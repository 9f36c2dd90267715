use vstd::prelude::*;
use vstd::string::StringExecFns;

use crate::arg::{first_format_in, spec_as_output_format, spec_effective_format, Arg};
use crate::boundary::{
    connect_created, connect_ok, connect_released, error_text, query_created, query_ok,
    query_released, raw_ok, ConnectReply, Ledger, RawResult,
};
use crate::connection::Connection;
use crate::error::Error;
use crate::format::OutputFormat;
use crate::query_result::QueryResult;
use crate::text::nul_free;

verus! {

/// What probing the session's working directory found, reported by the
/// caller that performed the filesystem steps: conversion of the path to the
/// text form the boundary requires, recursive creation, and the permission
/// check, in that order of precedence.
#[derive(Debug, Clone, Copy, PartialEq, Eq, Structural)]
pub enum DirProbe {
    /// The path has no valid textual representation for the boundary.
    NotRepresentable,
    /// Creating the directory recursively, or reading it back, failed.
    CreateFailed,
    /// The directory exists but is read-only.
    ReadOnly,
    /// The directory exists and is writable.
    Writable,
}

/// Builder for a `Session`: a working-directory path, a default output
/// format, and the auto-cleanup choice.
#[derive(Debug, Clone)]
pub struct SessionBuilder {
    data_path: String,
    default_format: OutputFormat,
    auto_cleanup: bool,
}

/// A persistent `Connection` rooted at a working directory, with a default
/// output format and an optional cleanup obligation for the directory when
/// the session is released.
#[derive(Debug)]
pub struct Session {
    conn: Connection,
    data_path: String,
    default_format: OutputFormat,
    auto_cleanup: bool,
}

impl SessionBuilder {
    /// The working-directory path the session will use.
    pub closed spec fn spec_data_path(&self) -> Seq<char> {
        self.data_path@
    }

    /// The output format queries run under when the call supplies none.
    pub closed spec fn spec_default_format(&self) -> OutputFormat {
        self.default_format
    }

    /// Whether releasing the session removes its working directory.
    pub closed spec fn spec_auto_cleanup(&self) -> bool {
        self.auto_cleanup
    }

    /// A builder with the defaults: working directory `chdb`, resolved
    /// against the current directory, `TabSeparated` output, no cleanup.
    pub fn new() -> (r: SessionBuilder)
        ensures
            r.spec_data_path() == "chdb"@,
            r.spec_default_format() == OutputFormat::TabSeparated,
            !r.spec_auto_cleanup(),
    {
        SessionBuilder {
            data_path: String::from_str("chdb"),
            default_format: OutputFormat::TabSeparated,
            auto_cleanup: false,
        }
    }

    /// Choose the working-directory path.
    pub fn with_data_path(self, path: String) -> (r: SessionBuilder)
        ensures
            r.spec_data_path() == path@,
            r.spec_default_format() == self.spec_default_format(),
            r.spec_auto_cleanup() == self.spec_auto_cleanup(),
    {
        SessionBuilder { data_path: path, default_format: self.default_format, auto_cleanup: self.auto_cleanup }
    }

    /// Record one default argument. Only an output format is carried as a
    /// session default; every other argument is ignored here and passes per
    /// call instead.
    pub fn with_arg(self, arg: Arg) -> (r: SessionBuilder)
        ensures
            r.spec_data_path() == self.spec_data_path(),
            r.spec_auto_cleanup() == self.spec_auto_cleanup(),
            spec_as_output_format(arg) is Some ==> r.spec_default_format()
                == spec_as_output_format(arg).unwrap(),
            spec_as_output_format(arg) is None ==> r.spec_default_format()
                == self.spec_default_format(),
    {
        match arg.as_output_format() {
            Some(f) => SessionBuilder {
                data_path: self.data_path,
                default_format: f,
                auto_cleanup: self.auto_cleanup,
            },
            None => self,
        }
    }

    /// If set, releasing the session removes its working directory.
    pub fn with_auto_cleanup(self, value: bool) -> (r: SessionBuilder)
        ensures
            r.spec_data_path() == self.spec_data_path(),
            r.spec_default_format() == self.spec_default_format(),
            r.spec_auto_cleanup() == value,
    {
        SessionBuilder {
            data_path: self.data_path,
            default_format: self.default_format,
            auto_cleanup: value,
        }
    }

    /// Build the session: judge the directory probe — an unrepresentable
    /// path fails with `PathError`, a failed creation with `IoError`, a
    /// read-only directory with `InsufficientPermissions`, each before any
    /// native call — then open a connection rooted at the path via the
    /// session-style argv flow.
    pub fn build(self, l: &mut Ledger, probe: DirProbe, reply: ConnectReply) -> (r: Result<
        Session,
        Error,
    >)
        requires
            old(l).created < u64::MAX,
            old(l).released < u64::MAX,
        ensures
            r is Ok <==> probe == DirProbe::Writable && nul_free(self.spec_data_path())
                && connect_ok(reply),
            probe == DirProbe::NotRepresentable ==> r == Err::<Session, Error>(Error::PathError)
                && *final(l) == *old(l),
            probe == DirProbe::CreateFailed ==> r == Err::<Session, Error>(Error::IoError)
                && *final(l) == *old(l),
            probe == DirProbe::ReadOnly ==> r == Err::<Session, Error>(
                Error::InsufficientPermissions,
            ) && *final(l) == *old(l),
            probe == DirProbe::Writable && !nul_free(self.spec_data_path()) ==> r == Err::<
                Session,
                Error,
            >(Error::EncodingError) && *final(l) == *old(l),
            probe == DirProbe::Writable && nul_free(self.spec_data_path()) && !connect_ok(reply)
                ==> r == Err::<Session, Error>(Error::ConnectionFailed),
            probe == DirProbe::Writable && nul_free(self.spec_data_path()) ==> final(l).created
                == old(l).created + connect_created(reply),
            probe == DirProbe::Writable && nul_free(self.spec_data_path()) ==> final(l).released
                == old(l).released + connect_released(reply),
            r is Ok ==> ({
                let s = r.unwrap();
                &&& s.spec_data_path() == self.spec_data_path()
                &&& s.spec_default_format() == self.spec_default_format()
                &&& s.spec_auto_cleanup() == self.spec_auto_cleanup()
            }),
    {
        match probe {
            DirProbe::NotRepresentable => Err(Error::PathError),
            DirProbe::CreateFailed => Err(Error::IoError),
            DirProbe::ReadOnly => Err(Error::InsufficientPermissions),
            DirProbe::Writable => {
                let conn = match Connection::open_with_path(l, self.data_path.as_str(), reply) {
                    Ok(c) => c,
                    Err(e) => {
                        return Err(e);
                    }
                };
                Ok(
                    Session {
                        conn,
                        data_path: self.data_path,
                        default_format: self.default_format,
                        auto_cleanup: self.auto_cleanup,
                    },
                )
            }
        }
    }
}

impl Default for SessionBuilder {
    /// The same builder `new` returns.
    fn default() -> (r: SessionBuilder)
        ensures
            r.spec_data_path() == "chdb"@,
            r.spec_default_format() == OutputFormat::TabSeparated,
            !r.spec_auto_cleanup(),
    {
        SessionBuilder::new()
    }
}

impl Session {
    /// The connection is open for the session's whole lifetime.
    #[verifier::type_invariant]
    spec fn conn_open(&self) -> bool {
        self.conn.is_open()
    }

    /// The working-directory path.
    pub closed spec fn spec_data_path(&self) -> Seq<char> {
        self.data_path@
    }

    /// The output format queries run under when the call supplies none.
    pub closed spec fn spec_default_format(&self) -> OutputFormat {
        self.default_format
    }

    /// Whether releasing the session removes its working directory.
    pub closed spec fn spec_auto_cleanup(&self) -> bool {
        self.auto_cleanup
    }

    /// The format one call runs under: the first output format among the
    /// call-supplied arguments, else the session's default.
    pub fn effective_format(&self, query_args: Option<&[Arg]>) -> (r: OutputFormat)
        ensures
            query_args is None ==> r == self.spec_default_format(),
            query_args is Some ==> r == spec_effective_format(
                Some(query_args.unwrap()@),
                self.spec_default_format(),
            ),
    {
        match query_args {
            None => self.default_format,
            Some(s) => match first_format_in(s) {
                Some(f) => f,
                None => self.default_format,
            },
        }
    }

    /// Run one query over the session's connection, under the effective
    /// format; the outcome translation is exactly `Connection::query`'s.
    pub fn execute(&self, l: &mut Ledger, query: &str, query_args: Option<&[Arg]>, reply: Option<
        RawResult,
    >) -> (r: Result<QueryResult, Error>)
        requires
            old(l).created < u64::MAX,
            old(l).released < u64::MAX,
        ensures
            r is Ok <==> nul_free(query@) && query_ok(reply),
            !nul_free(query@) ==> r == Err::<QueryResult, Error>(Error::EncodingError) && *final(l)
                == *old(l),
            nul_free(query@) && reply is None ==> r == Err::<QueryResult, Error>(Error::NoResult)
                && *final(l) == *old(l),
            nul_free(query@) ==> final(l).created == old(l).created + query_created(reply),
            nul_free(query@) ==> final(l).released == old(l).released + query_released(reply),
            nul_free(query@) && reply is Some && !raw_ok(reply.unwrap()) ==> (r matches Err(
                Error::QueryError(m),
            ) && m@ == error_text(reply.unwrap().error).unwrap()),
            r is Ok ==> ({
                let q = r.unwrap();
                let raw = reply.unwrap();
                &&& q.spec_buf() == raw.buf@
                &&& q.spec_rows_read() == raw.rows_read
                &&& q.spec_bytes_read() == raw.bytes_read
                &&& q.spec_elapsed_nanos() == raw.elapsed_nanos
                &&& q.succeeded()
            }),
    {
        proof {
            use_type_invariant(self);
        }
        let fmt = self.effective_format(query_args);
        self.conn.query(l, query, fmt, reply)
    }

    /// Tear the session down: close the connection, releasing its handle
    /// exactly once, and hand back the working directory to remove when
    /// auto-cleanup was chosen. The removal itself is the caller's
    /// best-effort step; its failure is swallowed, never surfaced, because
    /// no caller is left to receive it at teardown.
    pub fn release(self, l: &mut Ledger) -> (r: Option<String>)
        requires
            old(l).released < u64::MAX,
        ensures
            final(l).released == old(l).released + 1,
            final(l).created == old(l).created,
            r is Some <==> self.spec_auto_cleanup(),
            r is Some ==> r.unwrap()@ == self.spec_data_path(),
    {
        let Session { conn, data_path, default_format: _, auto_cleanup } = self;
        conn.close(l);
        if auto_cleanup {
            Some(data_path)
        } else {
            None
        }
    }
}

} // verus!
