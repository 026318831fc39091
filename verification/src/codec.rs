//! Text encodings the bridge relies on: standard base64 and lossy UTF-8 decoding.
use vstd::prelude::*;
use vstd::utf8::*;
use base64::engine::general_purpose::STANDARD;
use base64::Engine;

verus! {

/// The character of a six-bit value in the standard base64 alphabet
/// (`A`..`Z`, `a`..`z`, `0`..`9`, `+`, `/`).
pub open spec fn base64_digit(v: int) -> char {
    if v < 26 {
        (v + 65) as char
    } else if v < 52 {
        (v + 71) as char
    } else if v < 62 {
        (v - 4) as char
    } else if v == 62 {
        '+'
    } else {
        '/'
    }
}

/// The standard (padded) base64 text of a byte sequence: each group of three bytes becomes
/// four characters, and a last group of one or two bytes is padded with `=`.
pub open spec fn base64_text(bytes: Seq<u8>) -> Seq<char>
    decreases bytes.len(),
{
    if bytes.len() == 0 {
        Seq::empty()
    } else if bytes.len() == 1 {
        let b0 = bytes[0] as int;
        seq![base64_digit(b0 / 4), base64_digit((b0 % 4) * 16), '=', '=']
    } else if bytes.len() == 2 {
        let (b0, b1) = (bytes[0] as int, bytes[1] as int);
        seq![base64_digit(b0 / 4), base64_digit((b0 % 4) * 16 + b1 / 16), base64_digit((b1 % 16) * 4), '=']
    } else {
        let (b0, b1, b2) = (bytes[0] as int, bytes[1] as int, bytes[2] as int);
        seq![
            base64_digit(b0 / 4),
            base64_digit((b0 % 4) * 16 + b1 / 16),
            base64_digit((b1 % 16) * 4 + b2 / 64),
            base64_digit(b2 % 64),
        ] + base64_text(bytes.subrange(3, bytes.len() as int))
    }
}

/// Whether a text is the standard base64 text of some bytes.
pub open spec fn is_base64_text(text: Seq<char>) -> bool {
    exists|bytes: Seq<u8>| #[trigger] base64_text(bytes) == text
}

/// What standard base64 decoding makes of a text: the bytes, or the error's message.
pub uninterp spec fn base64_decoding(text: Seq<char>) -> Result<Seq<u8>, Seq<char>>;

/// What lossy UTF-8 decoding makes of a byte sequence.
pub uninterp spec fn lossy_text(bytes: Seq<u8>) -> Seq<char>;

/// Standard base64 encoding (`base64::engine::general_purpose::STANDARD.encode`).
///
/// Trusted: the text is the standard base64 encoding of `bytes`, as `base64_text` spells it out.
#[verifier::external_body]
pub(crate) fn encode_base64(bytes: &[u8]) -> (r: String)
    requires
        bytes@.len() <= usize::MAX / 4,
    ensures
        r@ == base64_text(bytes@),
{
    STANDARD.encode(bytes)
}

/// Standard base64 decoding (`base64::engine::general_purpose::STANDARD.decode`); an error
/// is turned into its message.
///
/// Trusted: the outcome is the base64 decoding of `text`; the standard base64 text of some
/// bytes decodes to those bytes.
#[verifier::external_body]
pub(crate) fn decode_base64(text: &str) -> (r: Result<Vec<u8>, String>)
    ensures
        match r {
            Ok(bytes) => {
                &&& base64_decoding(text@) == Ok::<Seq<u8>, Seq<char>>(bytes@)
                &&& is_base64_text(text@) ==> base64_text(bytes@) == text@
            },
            Err(e) => {
                &&& base64_decoding(text@) == Err::<Seq<u8>, Seq<char>>(e@)
                &&& !is_base64_text(text@)
            },
        },
{
    STANDARD.decode(text).map_err(|e| e.to_string())
}

/// Lossy UTF-8 decoding (`String::from_utf8_lossy`).
///
/// Trusted: the text is the lossy decoding of `bytes`, and for valid UTF-8 it is exactly the
/// decoded text.
#[verifier::external_body]
pub(crate) fn utf8_lossy(bytes: &[u8]) -> (r: String)
    ensures
        r@ == lossy_text(bytes@),
        valid_utf8(bytes@) ==> r@ == decode_utf8(bytes@),
{
    String::from_utf8_lossy(bytes).into_owned()
}


proof fn lemma_base64_digit(v: int)
    requires
        0 <= v < 64,
    ensures
        base64_digit(v) != '=',
        v < 26 ==> base64_digit(v) as int == v + 65,
        26 <= v < 52 ==> base64_digit(v) as int == v + 71,
        52 <= v < 62 ==> base64_digit(v) as int == v - 4,
        v == 62 ==> base64_digit(v) as int == 43,
        v == 63 ==> base64_digit(v) as int == 47,
{
}

proof fn lemma_base64_digit_injective(v: int, w: int)
    requires
        0 <= v < 64,
        0 <= w < 64,
        base64_digit(v) == base64_digit(w),
    ensures
        v == w,
{
    lemma_base64_digit(v);
    lemma_base64_digit(w);
}

/// The length of standard base64 text, and where its padding stands.
pub proof fn lemma_base64_text_shape(bytes: Seq<u8>)
    ensures
        bytes.len() == 0 <==> base64_text(bytes).len() == 0,
        base64_text(bytes).len() >= 4 || bytes.len() == 0,
        bytes.len() >= 3 ==> base64_text(bytes)[3] != '=',
        bytes.len() == 2 ==> base64_text(bytes).len() == 4 && base64_text(bytes)[3] == '=' && base64_text(bytes)[2] != '=',
        bytes.len() == 1 ==> base64_text(bytes).len() == 4 && base64_text(bytes)[2] == '=',
        bytes.len() >= 1 ==> base64_text(bytes)[0] == base64_digit(bytes[0] as int / 4),
        bytes.len() == 1 ==> base64_text(bytes)[1] == base64_digit((bytes[0] as int % 4) * 16),
        bytes.len() >= 2 ==> base64_text(bytes)[1] == base64_digit((bytes[0] as int % 4) * 16 + bytes[1] as int / 16),
        bytes.len() == 2 ==> base64_text(bytes)[2] == base64_digit((bytes[1] as int % 16) * 4),
        bytes.len() >= 3 ==> base64_text(bytes)[2] == base64_digit((bytes[1] as int % 16) * 4 + bytes[2] as int / 64),
        bytes.len() >= 3 ==> base64_text(bytes)[3] == base64_digit(bytes[2] as int % 64),
    decreases bytes.len(),
{
    if bytes.len() >= 3 {
        lemma_base64_text_shape(bytes.subrange(3, bytes.len() as int));
        lemma_base64_digit(bytes[2] as int % 64);
    } else if bytes.len() == 2 {
        lemma_base64_digit((bytes[1] as int % 16) * 4);
    }
}

/// Different bytes have different standard base64 texts.
pub proof fn lemma_base64_text_injective(a: Seq<u8>, b: Seq<u8>)
    requires
        base64_text(a) == base64_text(b),
    ensures
        a == b,
    decreases a.len(),
{
    let t = base64_text(a);
    lemma_base64_text_shape(a);
    lemma_base64_text_shape(b);
    if a.len() == 0 {
        assert(b.len() == 0);
        assert(a =~= b);
    } else {
        assert(b.len() > 0);
        assert(a.len() >= 3 <==> b.len() >= 3);
        assert(a.len() == 1 <==> b.len() == 1);
        let (a0, b0) = (a[0] as int, b[0] as int);
        lemma_base64_digit_injective(a0 / 4, b0 / 4);
        if a.len() == 1 {
            lemma_base64_digit_injective((a0 % 4) * 16, (b0 % 4) * 16);
            assert(a =~= b);
        } else {
            let (a1, b1) = (a[1] as int, b[1] as int);
            lemma_base64_digit_injective((a0 % 4) * 16 + a1 / 16, (b0 % 4) * 16 + b1 / 16);
            assert(a0 == b0);
            assert(a1 / 16 == b1 / 16);
            if a.len() == 2 {
                lemma_base64_digit_injective((a1 % 16) * 4, (b1 % 16) * 4);
                assert(a =~= b);
            } else {
                let (a2, b2) = (a[2] as int, b[2] as int);
                lemma_base64_digit_injective((a1 % 16) * 4 + a2 / 64, (b1 % 16) * 4 + b2 / 64);
                lemma_base64_digit_injective(a2 % 64, b2 % 64);
                assert(a1 == b1);
                assert(a2 == b2);
                let (ra, rb) = (a.subrange(3, a.len() as int), b.subrange(3, b.len() as int));
                assert(base64_text(ra) =~= t.subrange(4, t.len() as int));
                assert(base64_text(rb) =~= t.subrange(4, t.len() as int));
                lemma_base64_text_injective(ra, rb);
                assert(a =~= seq![a[0], a[1], a[2]] + ra);
                assert(b =~= seq![b[0], b[1], b[2]] + rb);
            }
        }
    }
}

} // verus!
