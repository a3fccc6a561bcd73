//! Decoding of fixed-capacity, null-terminated character buffers.
use vstd::prelude::*;
use vstd::utf8::{decode_utf8, valid_utf8};

verus! {

/// The characters of `buf` before its first null, or all of them when none
/// is null.
pub open spec fn c_text(buf: Seq<i8>) -> Seq<i8>
    decreases buf.len(),
{
    if buf.len() == 0 || buf[0] == 0 {
        Seq::empty()
    } else {
        seq![buf[0]] + c_text(buf.drop_first())
    }
}

/// The bytes of the text held in `buf`.
pub open spec fn c_text_bytes(buf: Seq<i8>) -> Seq<u8> {
    c_text(buf).map_values(|c: i8| c as u8)
}

/// What `String::from_utf8_lossy` makes of a byte sequence.
pub uninterp spec fn lossy_utf8(b: Seq<u8>) -> Seq<char>;

/// The text ends at `n`: no null stands before it, and it is the end of the
/// buffer or a null.
proof fn lemma_c_text_ends_at(buf: Seq<i8>, n: int)
    requires
        0 <= n <= buf.len(),
        forall|j: int| 0 <= j < n ==> buf[j] != 0,
        n == buf.len() || buf[n] == 0,
    ensures
        c_text(buf) == buf.subrange(0, n),
    decreases n,
{
    if n == 0 {
        assert(buf.subrange(0, 0) =~= Seq::<i8>::empty());
    } else {
        let rest = buf.drop_first();
        assert forall|j: int| 0 <= j < n - 1 implies rest[j] != 0 by {
            assert(buf[j + 1] != 0);
        }
        lemma_c_text_ends_at(rest, n - 1);
        assert(c_text(buf) =~= buf.subrange(0, n));
    }
}

/// Relies on `String::from_utf8_lossy`: the result depends on the bytes alone,
/// and bytes that are valid UTF-8 come back as the text they encode.
#[verifier::external_body]
fn utf8_lossy(b: &[u8]) -> (r: String)
    ensures
        r@ == lossy_utf8(b@),
        valid_utf8(b@) ==> r@ == decode_utf8(b@),
{
    String::from_utf8_lossy(b).into_owned()
}

/// Decodes the text of a foreign character buffer into an owned string.
///
/// The text runs up to the first null, or over the whole buffer when it holds
/// none. Invalid UTF-8 is replaced rather than refused, so decoding never fails.
pub fn carray_to_string(buf: &[i8]) -> (r: String)
    ensures
        r@ == lossy_utf8(c_text_bytes(buf@)),
        valid_utf8(c_text_bytes(buf@)) ==> r@ == decode_utf8(c_text_bytes(buf@)),
{
    let mut bytes: Vec<u8> = Vec::new();
    let mut i: usize = 0;
    while i < buf.len() && buf[i] != 0
        invariant
            i <= buf@.len(),
            forall|j: int| 0 <= j < i ==> buf@[j] != 0,
            bytes@ == buf@.subrange(0, i as int).map_values(|c: i8| c as u8),
        decreases buf@.len() - i,
    {
        bytes.push(buf[i] as u8);
        i = i + 1;
        assert(bytes@ =~= buf@.subrange(0, i as int).map_values(|c: i8| c as u8));
    }
    proof {
        lemma_c_text_ends_at(buf@, i as int);
    }
    utf8_lossy(bytes.as_slice())
}

} // verus!
