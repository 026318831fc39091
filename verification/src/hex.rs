//! Lowercase hexadecimal names for device identifiers.
use vstd::prelude::*;
use vstd::utf8::*;
use crate::text::push_char;

verus! {

/// The lowercase hexadecimal digit of a value below sixteen.
pub open spec fn hex_digit(v: int) -> char {
    if v < 10 {
        (v + 48) as char
    } else {
        (v + 87) as char
    }
}

/// Whether `c` is one of `0`..`9`, `a`..`f`.
pub open spec fn is_hex_digit(c: char) -> bool {
    ('0' <= c && c <= '9') || ('a' <= c && c <= 'f')
}

/// The two digits of one byte, high half first (`{b:02x}`).
pub open spec fn byte_hex(b: u8) -> Seq<char> {
    seq![hex_digit(b as int / 16), hex_digit(b as int % 16)]
}

/// The hexadecimal text of a byte sequence: two digits per byte, in order.
pub open spec fn hex_text(bytes: Seq<u8>) -> Seq<char>
    decreases bytes.len(),
{
    if bytes.len() == 0 {
        Seq::empty()
    } else {
        hex_text(bytes.drop_last()) + byte_hex(bytes.last())
    }
}

/// The name that a device identifier gets on disk: the hexadecimal text of its UTF-8 bytes.
pub open spec fn hex_name(id: Seq<char>) -> Seq<char> {
    hex_text(encode_utf8(id))
}

proof fn lemma_hex_digit(v: int)
    requires
        0 <= v < 16,
    ensures
        is_hex_digit(hex_digit(v)),
        v < 10 ==> hex_digit(v) as int == v + 48,
        v >= 10 ==> hex_digit(v) as int == v + 87,
{
}

proof fn lemma_hex_digit_injective(v: int, w: int)
    requires
        0 <= v < 16,
        0 <= w < 16,
        hex_digit(v) == hex_digit(w),
    ensures
        v == w,
{
    lemma_hex_digit(v);
    lemma_hex_digit(w);
}

/// Hexadecimal text has two digits per byte, and only the digits `0`..`9`, `a`..`f`.
pub proof fn lemma_hex_text_shape(bytes: Seq<u8>)
    ensures
        hex_text(bytes).len() == 2 * bytes.len(),
        forall|i: int| 0 <= i < hex_text(bytes).len() ==> is_hex_digit(#[trigger] hex_text(bytes)[i]),
    decreases bytes.len(),
{
    if bytes.len() > 0 {
        lemma_hex_text_shape(bytes.drop_last());
        lemma_hex_digit(bytes.last() as int / 16);
        lemma_hex_digit(bytes.last() as int % 16);
        let prev = hex_text(bytes.drop_last());
        let whole = hex_text(bytes);
        assert forall|i: int| 0 <= i < whole.len() implies is_hex_digit(#[trigger] whole[i]) by {
            if i < prev.len() {
                assert(whole[i] == prev[i]);
            }
        }
    }
}

/// Distinct byte sequences have distinct hexadecimal texts.
pub proof fn lemma_hex_text_injective(a: Seq<u8>, b: Seq<u8>)
    requires
        hex_text(a) == hex_text(b),
    ensures
        a == b,
    decreases a.len(),
{
    lemma_hex_text_shape(a);
    lemma_hex_text_shape(b);
    if a.len() > 0 {
        let ta = hex_text(a);
        let n = ta.len();
        let pa = hex_text(a.drop_last());
        let pb = hex_text(b.drop_last());
        lemma_hex_text_shape(a.drop_last());
        lemma_hex_text_shape(b.drop_last());
        assert(ta[n - 2] == byte_hex(a.last())[0]);
        assert(ta[n - 2] == byte_hex(b.last())[0]);
        assert(ta[n - 1] == byte_hex(a.last())[1]);
        assert(ta[n - 1] == byte_hex(b.last())[1]);
        lemma_hex_digit_injective(a.last() as int / 16, b.last() as int / 16);
        lemma_hex_digit_injective(a.last() as int % 16, b.last() as int % 16);
        assert(pa =~= ta.subrange(0, n - 2));
        assert(pb =~= ta.subrange(0, n - 2));
        lemma_hex_text_injective(a.drop_last(), b.drop_last());
        assert(a =~= a.drop_last().push(a.last()));
        assert(b =~= b.drop_last().push(b.last()));
    }
}

/// Two device identifiers with the same on-disk name are the same identifier.
pub proof fn lemma_hex_name_injective(a: Seq<char>, b: Seq<char>)
    requires
        hex_name(a) == hex_name(b),
    ensures
        a == b,
{
    lemma_hex_text_injective(encode_utf8(a), encode_utf8(b));
    encode_utf8_decode_utf8(a);
    encode_utf8_decode_utf8(b);
}

fn digit_char(v: u8) -> (c: char)
    requires
        v < 16,
    ensures
        c == hex_digit(v as int),
{
    if v < 10 {
        ((v + 48) as u8) as char
    } else {
        ((v + 87) as u8) as char
    }
}

/// The hexadecimal text of `bytes`.
pub fn hex_of_bytes(bytes: &[u8]) -> (r: String)
    requires
        bytes@.len() <= usize::MAX / 4,
    ensures
        r@ == hex_text(bytes@),
{
    let mut r = String::new();
    let mut i: usize = 0;
    while i < bytes.len()
        invariant
            i <= bytes@.len(),
            bytes@.len() <= usize::MAX / 4,
            r@ == hex_text(bytes@.subrange(0, i as int)),
        decreases bytes@.len() - i,
    {
        proof {
            lemma_hex_text_shape(bytes@.subrange(0, i as int));
            assert(is_ascii_chars(r@));
        }
        let b: u8 = bytes[i];
        let high = digit_char(b / 16);
        let low = digit_char(b % 16);
        proof {
            lemma_hex_digit(b as int / 16);
            lemma_hex_digit(b as int % 16);
        }
        push_char(&mut r, high);
        proof {
            assert(is_ascii_chars(r@));
        }
        push_char(&mut r, low);
        proof {
            let next = bytes@.subrange(0, i + 1);
            assert(next.drop_last() =~= bytes@.subrange(0, i as int));
            assert(next.last() == b);
        }
        i = i + 1;
    }
    proof {
        assert(bytes@.subrange(0, bytes@.len() as int) =~= bytes@);
    }
    r
}

/// The on-disk name of a device: the lowercase hexadecimal text of the identifier's UTF-8 bytes.
pub fn hex_id(value: &str) -> (r: String)
    requires
        encode_utf8(value@).len() <= usize::MAX / 4,
    ensures
        r@ == hex_name(value@),
{
    hex_of_bytes(value.as_bytes())
}

} // verus!
