//! Text compared byte for byte. Paths are matched on the bytes of their UTF-8
//! form; the lemmas here show that this is the same as matching their
//! characters, so the contracts elsewhere can speak of characters.

use vstd::prelude::*;
use vstd::utf8::{
    char_u32_cast, decode_first_scalar, encode_utf8, encode_utf8_decode_utf8,
    encode_utf8_first_scalar, length_of_first_scalar,
};

verus! {

/// Encoding a concatenation is concatenating the encodings.
pub proof fn lemma_encode_concat(a: Seq<char>, b: Seq<char>)
    ensures
        encode_utf8(a + b) == encode_utf8(a) + encode_utf8(b),
    decreases a.len(),
{
    if a.len() == 0 {
        assert(a + b =~= b);
        assert(encode_utf8(a) + encode_utf8(b) =~= encode_utf8(b));
    } else {
        lemma_encode_concat(a.drop_first(), b);
        assert((a + b).drop_first() =~= a.drop_first() + b);
        assert(encode_utf8(a + b) =~= encode_utf8(a) + encode_utf8(b));
    }
}

/// Two texts with the same bytes are the same text.
pub proof fn lemma_encode_injective(a: Seq<char>, b: Seq<char>)
    requires
        encode_utf8(a) == encode_utf8(b),
    ensures
        a == b,
{
    encode_utf8_decode_utf8(a);
    encode_utf8_decode_utf8(b);
}

/// If the bytes of `a` begin the bytes of `b`, the characters of `a` begin
/// those of `b`.
proof fn lemma_byte_prefix_is_char_prefix(a: Seq<char>, b: Seq<char>)
    requires
        encode_utf8(a).is_prefix_of(encode_utf8(b)),
    ensures
        a.is_prefix_of(b),
    decreases a.len(),
{
    if a.len() > 0 {
        let ea = encode_utf8(a);
        let eb = encode_utf8(b);
        // Both encodings open with the same scalar: its bytes lie within `ea`.
        encode_utf8_first_scalar(a);
        encode_utf8_first_scalar(b);
        let width = length_of_first_scalar(ea);
        assert(forall|i: int| 0 <= i < ea.len() ==> ea[i] == eb[i]);
        assert(decode_first_scalar(ea) == decode_first_scalar(eb));
        char_u32_cast(a[0], decode_first_scalar(ea));
        char_u32_cast(b[0], decode_first_scalar(eb));
        // What follows it is again a prefix.
        let ra = encode_utf8(a.drop_first());
        let rb = encode_utf8(b.drop_first());
        assert(ra =~= ea.subrange(width, ea.len() as int));
        assert(rb =~= eb.subrange(width, eb.len() as int));
        assert(ra =~= rb.subrange(0, ra.len() as int));
        lemma_byte_prefix_is_char_prefix(a.drop_first(), b.drop_first());
        assert forall|i: int| 0 <= i < a.len() implies a[i] == b[i] by {
            if i > 0 {
                assert(a.drop_first()[i - 1] == b.drop_first().subrange(
                    0,
                    a.drop_first().len() as int,
                )[i - 1]);
            }
        }
        assert(a =~= b.subrange(0, a.len() as int));
    }
}

/// A text begins another exactly when its bytes begin the other's bytes.
pub proof fn lemma_prefix_bytewise(a: Seq<char>, b: Seq<char>)
    ensures
        a.is_prefix_of(b) <==> encode_utf8(a).is_prefix_of(encode_utf8(b)),
{
    if a.is_prefix_of(b) {
        let rest = b.subrange(a.len() as int, b.len() as int);
        assert(b =~= a + rest);
        lemma_encode_concat(a, rest);
        assert(encode_utf8(a) =~= encode_utf8(b).subrange(0, encode_utf8(a).len() as int));
    }
    if encode_utf8(a).is_prefix_of(encode_utf8(b)) {
        lemma_byte_prefix_is_char_prefix(a, b);
    }
}

/// Tells whether `prefix` begins `bytes`.
pub fn bytes_start_with(bytes: &[u8], prefix: &[u8]) -> (found: bool)
    ensures
        found == prefix@.is_prefix_of(bytes@),
{
    if prefix.len() > bytes.len() {
        return false;
    }
    let mut i: usize = 0;
    while i < prefix.len()
        invariant
            i <= prefix@.len() <= bytes@.len(),
            forall|j: int| 0 <= j < i ==> prefix@[j] == bytes@[j],
        decreases prefix@.len() - i,
    {
        if prefix[i] != bytes[i] {
            assert(prefix@[i as int] != bytes@.subrange(0, prefix@.len() as int)[i as int]);
            return false;
        }
        i += 1;
    }
    assert(prefix@ =~= bytes@.subrange(0, prefix@.len() as int));
    true
}

/// Tells whether `prefix` begins `text`, comparing byte for byte.
pub fn starts_with(text: &str, prefix: &str) -> (found: bool)
    ensures
        found == prefix@.is_prefix_of(text@),
{
    proof {
        lemma_prefix_bytewise(prefix@, text@);
    }
    bytes_start_with(text.as_bytes(), prefix.as_bytes())
}

/// Tells whether `text` is `prefix` followed by `suffix` and nothing more.
pub fn is_concat(text: &str, prefix: &str, suffix: &str) -> (found: bool)
    ensures
        found == (text@ == prefix@ + suffix@),
{
    let t = text.as_bytes();
    let p = prefix.as_bytes();
    let s = suffix.as_bytes();
    proof {
        lemma_encode_concat(prefix@, suffix@);
        if t@ == p@ + s@ {
            lemma_encode_injective(text@, prefix@ + suffix@);
        }
    }
    if t.len() < p.len() || t.len() - p.len() != s.len() {
        return false;
    }
    if !bytes_start_with(t, p) {
        assert(t@ != p@ + s@) by {
            if t@ == p@ + s@ {
                assert(p@ =~= t@.subrange(0, p@.len() as int));
            }
        }
        return false;
    }
    let rest = vstd::slice::slice_subrange(t, p.len(), t.len());
    let found = bytes_start_with(rest, s);
    proof {
        if found {
            assert(s@ =~= rest@);
            assert(t@ =~= p@ + s@);
        } else {
            if t@ == p@ + s@ {
                assert(rest@ =~= s@);
                assert(s@ =~= rest@.subrange(0, s@.len() as int));
            }
        }
    }
    found
}

} // verus!
