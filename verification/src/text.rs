use vstd::prelude::*;
use vstd::utf8::{decode_utf8, encode_utf8, is_ascii_chars, is_ascii_chars_encode_utf8, valid_utf8};

verus! {

/// Text may cross the native boundary only as a terminator-delimited byte
/// string, so its UTF-8 encoding must not contain an embedded NUL byte.
pub open spec fn nul_free(t: Seq<char>) -> bool {
    !encode_utf8(t).contains(0u8)
}

/// True exactly when no byte of `b` is NUL.
pub fn bytes_nul_free(b: &[u8]) -> (r: bool)
    ensures
        r == !b@.contains(0u8),
{
    let mut i: usize = 0;
    while i < b.len()
        invariant
            0 <= i <= b@.len(),
            forall|j: int| 0 <= j < i ==> b@[j] != 0u8,
        decreases b@.len() - i,
    {
        if b[i] == 0u8 {
            return false;
        }
        i = i + 1;
    }
    true
}

/// True exactly when the UTF-8 encoding of `s` carries no NUL byte, so `s`
/// can be handed to the native boundary as a terminator-delimited string.
pub fn str_nul_free(s: &str) -> (r: bool)
    ensures
        r == nul_free(s@),
{
    bytes_nul_free(s.as_bytes())
}

/// UTF-8 encoding distributes over concatenation of character sequences.
pub proof fn lemma_encode_utf8_concat(a: Seq<char>, b: Seq<char>)
    ensures
        encode_utf8(a + b) == encode_utf8(a) + encode_utf8(b),
    decreases a.len(),
{
    if a.len() == 0 {
        assert(a + b =~= b);
        assert(encode_utf8(a) + encode_utf8(b) =~= encode_utf8(b));
    } else {
        assert((a + b).drop_first() =~= a.drop_first() + b);
        assert((a + b)[0] == a[0]);
        lemma_encode_utf8_concat(a.drop_first(), b);
        assert(encode_utf8(a + b) =~= encode_utf8(a) + encode_utf8(b));
    }
}

/// A concatenation is NUL-free exactly when both parts are.
pub proof fn lemma_nul_free_concat(a: Seq<char>, b: Seq<char>)
    ensures
        nul_free(a + b) <==> nul_free(a) && nul_free(b),
{
    lemma_encode_utf8_concat(a, b);
    let ea = encode_utf8(a);
    let eb = encode_utf8(b);
    if ea.contains(0u8) {
        let i = choose|i: int| 0 <= i < ea.len() && ea[i] == 0u8;
        assert((ea + eb)[i] == 0u8);
    }
    if eb.contains(0u8) {
        let i = choose|i: int| 0 <= i < eb.len() && eb[i] == 0u8;
        assert((ea + eb)[ea.len() + i] == 0u8);
    }
    if (ea + eb).contains(0u8) {
        let i = choose|i: int| 0 <= i < (ea + eb).len() && (ea + eb)[i] == 0u8;
        if i < ea.len() {
            assert(ea[i] == 0u8);
        } else {
            assert(eb[i - ea.len()] == 0u8);
        }
    }
}

/// ASCII text without the NUL character encodes to bytes without NUL.
pub proof fn lemma_ascii_nul_free(t: Seq<char>)
    requires
        is_ascii_chars(t),
        forall|i: int| 0 <= i < t.len() ==> t[i] != '\0',
    ensures
        nul_free(t),
{
    is_ascii_chars_encode_utf8(t);
    assert forall|i: int| 0 <= i < encode_utf8(t).len() implies encode_utf8(t)[i] != 0u8 by {
        assert(t[i] as u8 == encode_utf8(t)[i]);
        assert(t[i] != '\0');
    }
}

/// Relies on `String::from_utf8`: it succeeds exactly on input that is valid
/// UTF-8 and then returns the text those bytes encode.
#[verifier::external_body]
pub(crate) fn utf8_from_bytes(b: &[u8]) -> (r: Option<String>)
    ensures
        r is Some <==> valid_utf8(b@),
        r is Some ==> r.unwrap()@ == decode_utf8(b@),
{
    String::from_utf8(b.to_vec()).ok()
}

/// What `String::from_utf8_lossy` returns: a function of the bytes alone,
/// with every invalid sequence replaced by the replacement character.
pub uninterp spec fn lossy_text(bytes: Seq<u8>) -> Seq<char>;

/// Relies on `String::from_utf8_lossy`: its result depends on the bytes
/// alone, and on valid UTF-8 it is exactly the decoded text.
#[verifier::external_body]
pub(crate) fn utf8_lossy_from_bytes(b: &[u8]) -> (r: String)
    ensures
        r@ == lossy_text(b@),
        valid_utf8(b@) ==> r@ == decode_utf8(b@),
{
    String::from_utf8_lossy(b).into_owned()
}

} // verus!
