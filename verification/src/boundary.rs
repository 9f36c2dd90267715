use vstd::prelude::*;

verus! {

/// What the native connect entrypoint handed back: the entrypoint returns a
/// handle-to-handle, and each indirection level is observed for nullness
/// before the connection may be considered open.
#[derive(Debug, Clone, Copy, PartialEq, Eq, Structural)]
pub struct ConnectReply {
    /// The returned handle itself was null.
    pub outer_null: bool,
    /// The handle the returned handle points to was null.
    pub inner_null: bool,
}

/// A connect reply yields an open connection only when both indirection
/// levels came back non-null.
pub open spec fn connect_ok(r: ConnectReply) -> bool {
    !r.outer_null && !r.inner_null
}

/// How many native connection handles this reply put in the caller's hands:
/// one exactly when the outer pointer came back non-null.
pub open spec fn connect_created(r: ConnectReply) -> int {
    if r.outer_null {
        0
    } else {
        1
    }
}

/// How many of those handles must be released on the spot: the partially
/// open case, where the outer pointer is non-null but points to null, hands
/// back a handle that can never become an open connection.
pub open spec fn connect_released(r: ConnectReply) -> int {
    if !r.outer_null && r.inner_null {
        1
    } else {
        0
    }
}

/// A failed open leaves no handle behind, and a successful one leaves
/// exactly the one it returns: whatever the connect entrypoint replied,
/// handles created minus handles released on the spot equals the number of
/// open connections handed to the caller.
pub proof fn lemma_connect_no_leak(r: ConnectReply)
    ensures
        !connect_ok(r) ==> connect_created(r) == connect_released(r),
        connect_ok(r) ==> connect_created(r) - connect_released(r) == 1,
{
}

/// Everything a native result handle reports, read out as plain values at
/// the point of the native call: the result buffer (empty when the native
/// buffer pointer was null or its length zero), the scalar statistics, and
/// the embedded error slot.
#[derive(Debug, Clone, PartialEq, Eq)]
pub struct RawResult {
    pub buf: Vec<u8>,
    pub rows_read: u64,
    pub bytes_read: u64,
    pub elapsed_nanos: u64,
    /// The embedded error-message slot; absent when the pointer was null.
    pub error: Option<String>,
}

/// The text an optional error slot carries.
pub open spec fn error_text(e: Option<String>) -> Option<Seq<char>> {
    match e {
        None => None,
        Some(m) => Some(m@),
    }
}

/// An error slot that is null or empty means the query succeeded.
pub open spec fn raw_ok(r: RawResult) -> bool {
    error_text(r.error) is None || error_text(r.error).unwrap().len() == 0
}

/// A query reply carries a usable result exactly when a result handle came
/// back and its error slot means success.
pub open spec fn query_ok(reply: Option<RawResult>) -> bool {
    reply is Some && raw_ok(reply.unwrap())
}

/// How many native result handles this reply put in the caller's hands.
pub open spec fn query_created(reply: Option<RawResult>) -> int {
    if reply is Some {
        1
    } else {
        0
    }
}

/// How many of those handles must be released on the spot: a handle whose
/// error slot is set never reaches the caller, so it is destroyed right
/// after its message is read.
pub open spec fn query_released(reply: Option<RawResult>) -> int {
    if reply is Some && !raw_ok(reply.unwrap()) {
        1
    } else {
        0
    }
}

/// A failed query leaves no result handle behind, and a successful one
/// leaves exactly the handle it returns: whatever the query entrypoint
/// replied, handles created minus handles released on the spot equals the
/// number of results handed to the caller.
pub proof fn lemma_query_no_leak(reply: Option<RawResult>)
    ensures
        !query_ok(reply) ==> query_created(reply) == query_released(reply),
        query_ok(reply) ==> query_created(reply) - query_released(reply) == 1,
{
}

/// Create/release counters for native handles.
///
/// Every function that consumes a boundary reply or releases an owned value
/// records its effect here, so the exactly-once release discipline — on the
/// success path, the native-reported-failure path and the encoding-failure
/// path alike — is stated in each contract and can be audited by a test
/// double standing in for the native boundary.
#[derive(Debug, Clone, Copy, PartialEq, Eq, Structural)]
pub struct Ledger {
    pub created: u64,
    pub released: u64,
}

/// Handles currently live: created and not yet released.
pub open spec fn net(l: Ledger) -> int {
    l.created - l.released
}

impl Ledger {
    /// A ledger with nothing created and nothing released.
    pub fn new() -> (r: Ledger)
        ensures
            r.created == 0,
            r.released == 0,
    {
        Ledger { created: 0, released: 0 }
    }

    /// Record that a native handle came into this library's hands.
    pub(crate) fn record_create(&mut self)
        requires
            old(self).created < u64::MAX,
        ensures
            final(self).created == old(self).created + 1,
            final(self).released == old(self).released,
    {
        self.created = self.created + 1;
    }

    /// Record that a native handle was released.
    pub(crate) fn record_release(&mut self)
        requires
            old(self).released < u64::MAX,
        ensures
            final(self).released == old(self).released + 1,
            final(self).created == old(self).created,
    {
        self.released = self.released + 1;
    }
}

} // verus!
