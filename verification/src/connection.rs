use vstd::prelude::*;
use vstd::slice::slice_index_get;
use vstd::string::StringExecFns;

use crate::arg::session_argv;
use crate::boundary::{
    connect_created, connect_ok, connect_released, error_text, query_created, query_ok,
    query_released, raw_ok, ConnectReply, Ledger, RawResult,
};
use crate::error::Error;
use crate::format::{format_text, lemma_format_text_nul_free, OutputFormat};
use crate::query_result::QueryResult;
use crate::text::{lemma_ascii_nul_free, nul_free, str_nul_free};

verus! {

/// Exclusive ownership of one open native connection handle.
///
/// A `Connection` exists only while its handle is open: `open` hands one out
/// only after both indirection levels of the connect reply were checked, and
/// `close` consumes the value, so the handle is released exactly once and no
/// query can run against a closed connection.
#[derive(Debug)]
pub struct Connection {
    open: bool,
}

/// Every argv string can cross the boundary: none carries a NUL byte.
pub open spec fn argv_ok(args: Seq<String>) -> bool {
    forall|i: int| 0 <= i < args.len() ==> nul_free((#[trigger] args[i])@)
}

impl Connection {
    /// The native handle is open. Holds of every `Connection` ever handed out.
    pub closed spec fn is_open(&self) -> bool {
        self.open
    }

    /// Judge one connect attempt: validate the argv first — a string with an
    /// embedded terminator byte fails with `EncodingError` before any native
    /// call, leaving the ledger untouched — then check both indirection
    /// levels of the reply, releasing a partially-open handle on the spot.
    pub fn open(l: &mut Ledger, args: &[String], reply: ConnectReply) -> (r: Result<
        Connection,
        Error,
    >)
        requires
            old(l).created < u64::MAX,
            old(l).released < u64::MAX,
        ensures
            r is Ok <==> argv_ok(args@) && connect_ok(reply),
            !argv_ok(args@) ==> r == Err::<Connection, Error>(Error::EncodingError) && *final(l)
                == *old(l),
            argv_ok(args@) && !connect_ok(reply) ==> r == Err::<Connection, Error>(
                Error::ConnectionFailed,
            ),
            argv_ok(args@) ==> final(l).created == old(l).created + connect_created(reply),
            argv_ok(args@) ==> final(l).released == old(l).released + connect_released(reply),
            r is Ok ==> r.unwrap().is_open(),
    {
        let mut i: usize = 0;
        while i < args.len()
            invariant
                0 <= i <= args@.len(),
                forall|j: int| 0 <= j < i ==> nul_free((#[trigger] args@[j])@),
            decreases args@.len() - i,
        {
            if !str_nul_free(slice_index_get(args, i).as_str()) {
                return Err(Error::EncodingError);
            }
            i = i + 1;
        }
        if reply.outer_null {
            return Err(Error::ConnectionFailed);
        }
        l.record_create();
        if reply.inner_null {
            l.record_release();
            return Err(Error::ConnectionFailed);
        }
        Ok(Connection { open: true })
    }

    /// Open an in-memory connection: the argv is the bare program token,
    /// which always encodes, so only the reply decides the outcome.
    pub fn open_in_memory(l: &mut Ledger, reply: ConnectReply) -> (r: Result<Connection, Error>)
        requires
            old(l).created < u64::MAX,
            old(l).released < u64::MAX,
        ensures
            r is Ok <==> connect_ok(reply),
            !connect_ok(reply) ==> r == Err::<Connection, Error>(Error::ConnectionFailed),
            final(l).created == old(l).created + connect_created(reply),
            final(l).released == old(l).released + connect_released(reply),
            r is Ok ==> r.unwrap().is_open(),
    {
        let mut argv: Vec<String> = Vec::new();
        argv.push(String::from_str("clickhouse"));
        proof {
            reveal_strlit("clickhouse");
            lemma_ascii_nul_free("clickhouse"@);
        }
        Connection::open(l, argv.as_slice(), reply)
    }

    /// Open a connection rooted at a database path, via the session-style
    /// argv flow: `EncodingError` if the path carries a terminator byte (no
    /// native call is made), else the reply decides.
    pub fn open_with_path(l: &mut Ledger, path: &str, reply: ConnectReply) -> (r: Result<
        Connection,
        Error,
    >)
        requires
            old(l).created < u64::MAX,
            old(l).released < u64::MAX,
        ensures
            r is Ok <==> nul_free(path@) && connect_ok(reply),
            !nul_free(path@) ==> r == Err::<Connection, Error>(Error::EncodingError) && *final(l)
                == *old(l),
            nul_free(path@) && !connect_ok(reply) ==> r == Err::<Connection, Error>(
                Error::ConnectionFailed,
            ),
            nul_free(path@) ==> final(l).created == old(l).created + connect_created(reply),
            nul_free(path@) ==> final(l).released == old(l).released + connect_released(reply),
            r is Ok ==> r.unwrap().is_open(),
    {
        let no_args: Vec<crate::arg::Arg> = Vec::new();
        let argv = match session_argv(path, no_args.as_slice()) {
            Ok(v) => v,
            Err(e) => {
                return Err(e);
            }
        };
        Connection::open(l, argv.as_slice(), reply)
    }

    /// Judge one query: encode the query text — a terminator byte in it
    /// fails with `EncodingError` before any native call — then translate
    /// the reply: no handle means `NoResult`; a handle with its error slot
    /// set is released on the spot and its message surfaces as `QueryError`;
    /// otherwise the result is handed to the caller. The format name never
    /// needs validation: every format encodes to NUL-free text.
    pub fn query(&self, l: &mut Ledger, sql: &str, format: OutputFormat, reply: Option<
        RawResult,
    >) -> (r: Result<QueryResult, Error>)
        requires
            self.is_open(),
            old(l).created < u64::MAX,
            old(l).released < u64::MAX,
        ensures
            r is Ok <==> nul_free(sql@) && query_ok(reply),
            nul_free(format_text(format)),
            !nul_free(sql@) ==> r == Err::<QueryResult, Error>(Error::EncodingError) && *final(l)
                == *old(l),
            nul_free(sql@) && reply is None ==> r == Err::<QueryResult, Error>(Error::NoResult)
                && *final(l) == *old(l),
            nul_free(sql@) ==> final(l).created == old(l).created + query_created(reply),
            nul_free(sql@) ==> final(l).released == old(l).released + query_released(reply),
            nul_free(sql@) && reply is Some && !raw_ok(reply.unwrap()) ==> (r matches Err(
                Error::QueryError(m),
            ) && m@ == error_text(reply.unwrap().error).unwrap()),
            r is Ok ==> ({
                let q = r.unwrap();
                let raw = reply.unwrap();
                &&& q.spec_buf() == raw.buf@
                &&& q.spec_rows_read() == raw.rows_read
                &&& q.spec_bytes_read() == raw.bytes_read
                &&& q.spec_elapsed_nanos() == raw.elapsed_nanos
                &&& q.succeeded()
            }),
    {
        proof {
            lemma_format_text_nul_free(format);
        }
        if !str_nul_free(sql) {
            return Err(Error::EncodingError);
        }
        match reply {
            None => Err(Error::NoResult),
            Some(raw) => QueryResult::new(l, raw).check_error(l),
        }
    }

    /// Close the connection, releasing its handle. Consuming the value makes
    /// a second close, or a query after close, impossible.
    pub fn close(self, l: &mut Ledger)
        requires
            old(l).released < u64::MAX,
        ensures
            final(l).released == old(l).released + 1,
            final(l).created == old(l).created,
    {
        l.record_release();
    }
}

} // verus!
