pub mod arg;
pub mod boundary;
pub mod connection;
pub mod error;
pub mod format;
pub mod log_level;
pub mod query_result;
pub mod session;
pub mod text;

use vstd::prelude::*;

use crate::arg::{extract_output_format, Arg};
use crate::boundary::{
    connect_created, connect_ok, connect_released, error_text, net, query_created, query_ok,
    query_released, raw_ok, ConnectReply, Ledger, RawResult,
};
use crate::connection::Connection;
use crate::error::Error;
use crate::query_result::QueryResult;
use crate::text::nul_free;

verus! {

/// Execute a one-off query over a temporary in-memory connection: open it,
/// run the query under the format the arguments select, and close it again
/// on every path, so the connection handle never outlives the call.
///
/// Whatever the boundary replied, the ledger balance moves by exactly the
/// one result handle a successful call hands to the caller, and by nothing
/// on any failure path.
pub fn execute(
    l: &mut Ledger,
    query: &str,
    query_args: Option<&[Arg]>,
    connect_reply: ConnectReply,
    query_reply: Option<RawResult>,
) -> (r: Result<QueryResult, Error>)
    requires
        old(l).created + 2 <= u64::MAX,
        old(l).released + 2 <= u64::MAX,
    ensures
        r is Ok <==> connect_ok(connect_reply) && nul_free(query@) && query_ok(query_reply),
        !connect_ok(connect_reply) ==> r == Err::<QueryResult, Error>(Error::ConnectionFailed),
        connect_ok(connect_reply) && !nul_free(query@) ==> r == Err::<QueryResult, Error>(
            Error::EncodingError,
        ),
        connect_ok(connect_reply) && nul_free(query@) && query_reply is None ==> r == Err::<
            QueryResult,
            Error,
        >(Error::NoResult),
        connect_ok(connect_reply) && nul_free(query@) && query_reply is Some && !raw_ok(
            query_reply.unwrap(),
        ) ==> (r matches Err(Error::QueryError(m)) && m@ == error_text(
            query_reply.unwrap().error,
        ).unwrap()),
        !connect_ok(connect_reply) ==> final(l).created == old(l).created + connect_created(
            connect_reply,
        ) && final(l).released == old(l).released + connect_released(connect_reply),
        connect_ok(connect_reply) && !nul_free(query@) ==> final(l).created == old(l).created + 1
            && final(l).released == old(l).released + 1,
        connect_ok(connect_reply) && nul_free(query@) ==> final(l).created == old(l).created + 1
            + query_created(query_reply),
        connect_ok(connect_reply) && nul_free(query@) ==> final(l).released == old(l).released + 1
            + query_released(query_reply),
        r is Err ==> net(*final(l)) == net(*old(l)),
        r is Ok ==> net(*final(l)) == net(*old(l)) + 1,
        r is Ok ==> ({
            let q = r.unwrap();
            let raw = query_reply.unwrap();
            &&& q.spec_buf() == raw.buf@
            &&& q.spec_rows_read() == raw.rows_read
            &&& q.spec_bytes_read() == raw.bytes_read
            &&& q.spec_elapsed_nanos() == raw.elapsed_nanos
            &&& q.succeeded()
        }),
{
    let conn = match Connection::open_in_memory(l, connect_reply) {
        Ok(c) => c,
        Err(e) => {
            return Err(e);
        }
    };
    let fmt = extract_output_format(query_args);
    let r = conn.query(l, query, fmt, query_reply);
    conn.close(l);
    r
}

} // verus!
