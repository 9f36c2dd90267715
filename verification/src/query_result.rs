use vstd::prelude::*;
use vstd::utf8::{decode_utf8, valid_utf8};

use crate::boundary::{error_text, raw_ok, Ledger, RawResult};
use crate::error::Error;
use crate::text::{lossy_text, utf8_from_bytes, utf8_lossy_from_bytes};

verus! {

/// The result of one query execution.
///
/// A `QueryResult` stands for exactly one native result handle; it holds the
/// handle's buffer and statistics as plain values and is released exactly
/// once, by `check_error` on the native-reported-failure path or by
/// `destroy` once the caller is done with it. Every view it exposes is
/// bounded by the value's own lifetime.
#[derive(Debug)]
pub struct QueryResult {
    buf: Vec<u8>,
    rows_read: u64,
    bytes_read: u64,
    elapsed_nanos: u64,
    error: Option<String>,
}

impl QueryResult {
    /// The raw result bytes.
    pub closed spec fn spec_buf(&self) -> Seq<u8> {
        self.buf@
    }

    /// The rows-read counter the native layer reported.
    pub closed spec fn spec_rows_read(&self) -> u64 {
        self.rows_read
    }

    /// The bytes-read counter the native layer reported.
    pub closed spec fn spec_bytes_read(&self) -> u64 {
        self.bytes_read
    }

    /// The elapsed wall-clock time the native layer reported, in nanoseconds.
    pub closed spec fn spec_elapsed_nanos(&self) -> u64 {
        self.elapsed_nanos
    }

    /// The embedded error slot, as text.
    pub closed spec fn spec_error(&self) -> Option<Seq<char>> {
        error_text(self.error)
    }

    /// The error slot means success when it is absent or empty.
    pub open spec fn succeeded(&self) -> bool {
        self.spec_error() is None || self.spec_error().unwrap().len() == 0
    }

    /// Take ownership of one freshly created native result handle, read out
    /// as plain values, and record its creation in the ledger.
    pub fn new(l: &mut Ledger, raw: RawResult) -> (r: QueryResult)
        requires
            old(l).created < u64::MAX,
        ensures
            final(l).created == old(l).created + 1,
            final(l).released == old(l).released,
            r.spec_buf() == raw.buf@,
            r.spec_rows_read() == raw.rows_read,
            r.spec_bytes_read() == raw.bytes_read,
            r.spec_elapsed_nanos() == raw.elapsed_nanos,
            r.spec_error() == error_text(raw.error),
            r.succeeded() == raw_ok(raw),
    {
        l.record_create();
        QueryResult {
            buf: raw.buf,
            rows_read: raw.rows_read,
            bytes_read: raw.bytes_read,
            elapsed_nanos: raw.elapsed_nanos,
            error: raw.error,
        }
    }

    /// Translate the embedded error slot, exactly once, immediately after
    /// the native call: a null or empty slot means success; otherwise the
    /// handle is released on the spot and the message surfaces verbatim as
    /// `QueryError`, so a caller never holds a structurally successful but
    /// semantically failed result.
    pub fn check_error(self, l: &mut Ledger) -> (r: Result<QueryResult, Error>)
        requires
            old(l).released < u64::MAX,
        ensures
            r is Ok <==> self.succeeded(),
            r is Ok ==> *final(l) == *old(l),
            r is Ok ==> ({
                let q = r.unwrap();
                &&& q.spec_buf() == self.spec_buf()
                &&& q.spec_rows_read() == self.spec_rows_read()
                &&& q.spec_bytes_read() == self.spec_bytes_read()
                &&& q.spec_elapsed_nanos() == self.spec_elapsed_nanos()
                &&& q.succeeded()
            }),
            r is Err ==> final(l).released == old(l).released + 1,
            r is Err ==> final(l).created == old(l).created,
            r is Err ==> (r matches Err(Error::QueryError(m)) && m@ == self.spec_error().unwrap()),
    {
        let QueryResult { buf, rows_read, bytes_read, elapsed_nanos, error } = self;
        match error {
            None => Ok(QueryResult { buf, rows_read, bytes_read, elapsed_nanos, error: None }),
            Some(m) => {
                if m.as_str().is_empty() {
                    Ok(QueryResult { buf, rows_read, bytes_read, elapsed_nanos, error: Some(m) })
                } else {
                    l.record_release();
                    Err(Error::QueryError(m))
                }
            }
        }
    }

    /// The raw result data. Empty when the native buffer pointer was null or
    /// its length zero.
    pub fn data_ref(&self) -> (r: &[u8])
        ensures
            r@ == self.spec_buf(),
    {
        self.buf.as_slice()
    }

    /// Strict text view: the decoded text when the buffer is valid UTF-8,
    /// and `NonUtf8Sequence` exactly otherwise.
    pub fn data_utf8(&self) -> (r: Result<String, Error>)
        ensures
            r is Ok <==> valid_utf8(self.spec_buf()),
            r is Ok ==> r.unwrap()@ == decode_utf8(self.spec_buf()),
            r is Err ==> r == Err::<String, Error>(Error::NonUtf8Sequence),
    {
        match utf8_from_bytes(self.buf.as_slice()) {
            Some(s) => Ok(s),
            None => Err(Error::NonUtf8Sequence),
        }
    }

    /// Lossy text view: invalid sequences are replaced with the standard
    /// replacement character; on a buffer that is entirely valid UTF-8 the
    /// result is identical to the strict view's.
    pub fn data_utf8_lossy(&self) -> (r: String)
        ensures
            r@ == lossy_text(self.spec_buf()),
            valid_utf8(self.spec_buf()) ==> r@ == decode_utf8(self.spec_buf()),
    {
        utf8_lossy_from_bytes(self.buf.as_slice())
    }

    /// Unchecked text view: the caller declares, and here must prove, that
    /// the buffer is valid UTF-8; the result is then the decoded text.
    pub fn data_utf8_unchecked(&self) -> (r: String)
        requires
            valid_utf8(self.spec_buf()),
        ensures
            r@ == decode_utf8(self.spec_buf()),
    {
        utf8_from_bytes(self.buf.as_slice()).unwrap()
    }

    /// The number of rows the query read.
    pub fn rows_read(&self) -> (r: u64)
        ensures
            r == self.spec_rows_read(),
    {
        self.rows_read
    }

    /// The number of bytes the query read.
    pub fn bytes_read(&self) -> (r: u64)
        ensures
            r == self.spec_bytes_read(),
    {
        self.bytes_read
    }

    /// The elapsed wall-clock time of the query, in nanoseconds.
    pub fn elapsed_nanos(&self) -> (r: u64)
        ensures
            r == self.spec_elapsed_nanos(),
    {
        self.elapsed_nanos
    }

    /// Release the underlying handle. Consuming the value makes a second
    /// release impossible, and no view of the result can outlive it.
    pub fn destroy(self, l: &mut Ledger)
        requires
            old(l).released < u64::MAX,
        ensures
            final(l).released == old(l).released + 1,
            final(l).created == old(l).created,
    {
        l.record_release();
    }
}

} // verus!
