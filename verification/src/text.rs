//! Turning the bytes of a foreign, NUL-terminated name into text.

use vstd::prelude::*;
use vstd::utf8::{decode_utf8, valid_utf8};

verus! {

/// The text that lossy decoding makes of `bytes`: each invalid sequence
/// replaced by U+FFFD, the rest decoded as UTF-8.
pub uninterp spec fn utf8_lossy(bytes: Seq<u8>) -> Seq<char>;

/// Calls `String::from_utf8_lossy` from the standard library and copies the
/// result into a `String`.
///
/// Trusted, as the documentation of that function has it: the text is the
/// one that [`utf8_lossy`] names; for bytes that are valid UTF-8 it is their
/// decoding; for bytes that are not, it holds U+FFFD at least once. Where
/// the replacement characters fall is not claimed.
#[verifier::external_body]
fn from_utf8_lossy(bytes: &[u8]) -> (text: String)
    ensures
        text@ == utf8_lossy(bytes@),
        valid_utf8(bytes@) ==> text@ == decode_utf8(bytes@),
        !valid_utf8(bytes@) ==> text@.contains('\u{fffd}'),
{
    String::from_utf8_lossy(bytes).into_owned()
}

/// Whether `n` is where the C string in `buf` ends: at the first NUL, or at
/// the end of `buf` when it holds none.
pub open spec fn is_c_str_len(buf: Seq<u8>, n: int) -> bool {
    &&& 0 <= n <= buf.len()
    &&& forall|i: int| 0 <= i < n ==> buf[i] != 0
    &&& n < buf.len() ==> buf[n] == 0
}

/// The length of the C string in `buf`.
pub open spec fn c_str_len(buf: Seq<u8>) -> int
    decreases buf.len(),
{
    if buf.len() == 0 || buf[0] == 0 {
        0
    } else {
        1 + c_str_len(buf.drop_first())
    }
}

/// [`c_str_len`] is the one number that [`is_c_str_len`] accepts.
pub proof fn lemma_c_str_len(buf: Seq<u8>)
    ensures
        is_c_str_len(buf, c_str_len(buf)),
        forall|n: int| is_c_str_len(buf, n) ==> n == c_str_len(buf),
    decreases buf.len(),
{
    if buf.len() == 0 || buf[0] == 0 {
        assert forall|n: int| is_c_str_len(buf, n) implies n == 0 by {
            if n > 0 {
                assert(buf[0] != 0);
            }
        }
    } else {
        let rest = buf.drop_first();
        lemma_c_str_len(rest);
        let m = c_str_len(rest);
        assert forall|i: int| 0 <= i < m + 1 implies buf[i] != 0 by {
            if i > 0 {
                assert(buf[i] == rest[i - 1]);
            }
        }
        assert(m + 1 < buf.len() ==> buf[m + 1] == rest[m]);
        assert forall|n: int| is_c_str_len(buf, n) implies n == m + 1 by {
            assert(n > 0);
            assert forall|i: int| 0 <= i < n - 1 implies rest[i] != 0 by {
                assert(rest[i] == buf[i + 1]);
            }
            assert(n - 1 < rest.len() ==> rest[n - 1] == buf[n]);
            assert(is_c_str_len(rest, n - 1));
        }
    }
}

/// The bytes of the C string in `buf`: those before its terminator.
pub open spec fn c_str_bytes(buf: Seq<u8>) -> Seq<u8> {
    buf.take(c_str_len(buf))
}

/// The text of the C string in `buf`.
pub open spec fn c_str_text(buf: Seq<u8>) -> Seq<char> {
    utf8_lossy(c_str_bytes(buf))
}

/// Finds where the C string in `buf` ends.
pub fn find_c_str_len(buf: &[u8]) -> (n: usize)
    ensures
        n == c_str_len(buf@),
        is_c_str_len(buf@, n as int),
{
    let mut n: usize = 0;
    while n < buf.len() && buf[n] != 0
        invariant
            n <= buf.len(),
            forall|i: int| 0 <= i < n ==> buf@[i] != 0,
        decreases buf.len() - n,
    {
        n = n + 1;
    }
    proof {
        lemma_c_str_len(buf@);
    }
    n
}

/// Decodes the C string in `buf`, never failing: the bytes before the first
/// NUL (all of them when there is none) are read as UTF-8, and whatever is
/// not valid UTF-8 is replaced rather than refused.
pub fn decode_c_str(buf: &[u8]) -> (text: String)
    ensures
        text@ == c_str_text(buf@),
        valid_utf8(c_str_bytes(buf@)) ==> text@ == decode_utf8(c_str_bytes(buf@)),
        !valid_utf8(c_str_bytes(buf@)) ==> text@.contains('\u{fffd}'),
{
    let n = find_c_str_len(buf);
    let head = vstd::slice::slice_subrange(buf, 0, n);
    assert(head@ == buf@.take(n as int));
    from_utf8_lossy(head)
}

} // verus!
