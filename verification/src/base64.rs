//! Base64 in the standard alphabet with `=` padding, as the `base64` crate's
//! `STANDARD` engine writes and reads it.
use vstd::prelude::*;
use base64::Engine;

verus! {

/// The character of the standard alphabet that stands for a six-bit value.
pub open spec fn sextet_char(v: int) -> char {
    if v < 26 {
        (65 + v) as char
    } else if v < 52 {
        (97 + (v - 26)) as char
    } else if v < 62 {
        (48 + (v - 52)) as char
    } else if v == 62 {
        '+'
    } else {
        '/'
    }
}

/// The four characters that encode three bytes.
pub open spec fn full_quad(b0: int, b1: int, b2: int) -> Seq<char> {
    seq![
        sextet_char(b0 / 4),
        sextet_char((b0 % 4) * 16 + b1 / 16),
        sextet_char((b1 % 16) * 4 + b2 / 64),
        sextet_char(b2 % 64),
    ]
}

/// The four characters that encode two final bytes.
pub open spec fn two_byte_quad(b0: int, b1: int) -> Seq<char> {
    seq![
        sextet_char(b0 / 4),
        sextet_char((b0 % 4) * 16 + b1 / 16),
        sextet_char((b1 % 16) * 4),
        '=',
    ]
}

/// The four characters that encode one final byte.
pub open spec fn one_byte_quad(b0: int) -> Seq<char> {
    seq![sextet_char(b0 / 4), sextet_char((b0 % 4) * 16), '=', '=']
}

/// The standard padded Base64 encoding of a byte sequence.
pub open spec fn base64_encode(b: Seq<u8>) -> Seq<char>
    decreases b.len(),
{
    if b.len() == 0 {
        Seq::empty()
    } else if b.len() == 1 {
        one_byte_quad(b[0] as int)
    } else if b.len() == 2 {
        two_byte_quad(b[0] as int, b[1] as int)
    } else {
        full_quad(b[0] as int, b[1] as int, b[2] as int) + base64_encode(b.subrange(3, b.len() as int))
    }
}

/// The bytes that a text encodes, when it is the encoding of some bytes.
pub open spec fn base64_decoding(s: Seq<char>) -> Option<Seq<u8>> {
    if exists|b: Seq<u8>| base64_encode(b) == s {
        Some(choose|b: Seq<u8>| base64_encode(b) == s)
    } else {
        None
    }
}

/// The length that encoding `n` bytes takes.
pub open spec fn encoded_len(n: nat) -> nat {
    4 * ((n + 2) / 3)
}

/// Why the decoder refused a text.
#[derive(Debug, Clone, PartialEq, Eq)]
pub enum Base64Error {
    /// A byte that is not a symbol of the alphabet, or misplaced padding: offset and byte.
    InvalidByte(usize, u8),
    /// The number of symbols cannot be a valid encoding.
    InvalidLength(usize),
    /// The last symbol has bits set that no byte needs: offset and byte.
    InvalidLastSymbol(usize, u8),
    /// The padding is absent or not canonical.
    InvalidPadding,
}

/// `Engine::encode` of the `STANDARD` engine: the padded standard encoding.
/// It panics when the encoded length overflows `usize`, hence the bound.
#[verifier::external_body]
pub(crate) fn standard_encode(bytes: &[u8]) -> (res: String)
    requires
        encoded_len(bytes@.len()) <= usize::MAX,
    ensures
        res@ == base64_encode(bytes@),
{
    base64::engine::general_purpose::STANDARD.encode(bytes)
}

/// The error that the `STANDARD` decoder reports for a text it refuses.
pub uninterp spec fn base64_decode_error(text: Seq<char>) -> Base64Error;

/// `Engine::decode` of the `STANDARD` engine, which requires canonical padding
/// and rejects set trailing bits: it accepts exactly the texts that are the
/// encoding of some bytes, and gives those bytes back. A refused text gets the
/// error named by `base64_decode_error`, which depends on the text alone.
#[verifier::external_body]
pub(crate) fn standard_decode(text: &str) -> (res: Result<Vec<u8>, Base64Error>)
    ensures
        res matches Ok(v) ==> base64_encode(v@) == text@,
        (exists|b: Seq<u8>| base64_encode(b) == text@) ==> res is Ok,
        res matches Err(e) ==> e == base64_decode_error(text@),
{
    match base64::engine::general_purpose::STANDARD.decode(text) {
        Ok(v) => Ok(v),
        Err(base64::DecodeError::InvalidByte(i, b)) => Err(Base64Error::InvalidByte(i, b)),
        Err(base64::DecodeError::InvalidLength(n)) => Err(Base64Error::InvalidLength(n)),
        Err(base64::DecodeError::InvalidLastSymbol(i, b)) => Err(Base64Error::InvalidLastSymbol(i, b)),
        Err(base64::DecodeError::InvalidPadding) => Err(Base64Error::InvalidPadding),
    }
}

/// The alphabet gives distinct characters to distinct six-bit values, and none is `=`.
pub proof fn lemma_sextet_char_injective(v: int, w: int)
    requires
        0 <= v < 64,
        0 <= w < 64,
    ensures
        sextet_char(v) == sextet_char(w) ==> v == w,
        sextet_char(v) != '=',
{
}

/// The encoding of `n` bytes is `encoded_len(n)` characters long.
pub proof fn lemma_encode_len(b: Seq<u8>)
    ensures
        base64_encode(b).len() == encoded_len(b.len()),
    decreases b.len(),
{
    if b.len() >= 3 {
        lemma_encode_len(b.subrange(3, b.len() as int));
    }
}

proof fn lemma_sextets_determine_bytes(a0: int, a1: int, a2: int, b0: int, b1: int, b2: int)
    requires
        0 <= a0 < 256,
        0 <= a1 < 256,
        0 <= a2 < 256,
        0 <= b0 < 256,
        0 <= b1 < 256,
        0 <= b2 < 256,
        a0 / 4 == b0 / 4,
        (a0 % 4) * 16 + a1 / 16 == (b0 % 4) * 16 + b1 / 16,
        (a1 % 16) * 4 + a2 / 64 == (b1 % 16) * 4 + b2 / 64,
        a2 % 64 == b2 % 64,
    ensures
        a0 == b0,
        a1 == b1,
        a2 == b2,
{
}

/// Distinct byte sequences have distinct encodings.
pub proof fn lemma_encode_injective(a: Seq<u8>, b: Seq<u8>)
    requires
        base64_encode(a) == base64_encode(b),
    ensures
        a == b,
    decreases a.len(),
{
    let s = base64_encode(a);
    lemma_encode_len(a);
    lemma_encode_len(b);
    if a.len() == 0 {
        assert(b.len() == 0);
        assert(a =~= b);
    } else if a.len() == 1 {
        let a0 = a[0] as int;
        assert(s[2] == '=');
        if b.len() == 2 {
            lemma_sextet_char_injective((b[1] as int % 16) * 4, 0);
        } else if b.len() >= 3 {
            assert(s[2] == full_quad(b[0] as int, b[1] as int, b[2] as int)[2]);
            lemma_sextet_char_injective((b[1] as int % 16) * 4 + b[2] as int / 64, 0);
        }
        assert(b.len() == 1);
        let b0 = b[0] as int;
        lemma_sextet_char_injective(a0 / 4, b0 / 4);
        lemma_sextet_char_injective((a0 % 4) * 16, (b0 % 4) * 16);
        lemma_sextets_determine_bytes(a0, 0, 0, b0, 0, 0);
        assert(a =~= b);
    } else if a.len() == 2 {
        let a0 = a[0] as int;
        let a1 = a[1] as int;
        assert(s[3] == '=');
        lemma_sextet_char_injective((a1 % 16) * 4, 0);
        assert(s[2] != '=');
        if b.len() >= 3 {
            assert(s[3] == full_quad(b[0] as int, b[1] as int, b[2] as int)[3]);
            lemma_sextet_char_injective(b[2] as int % 64, 0);
        }
        assert(b.len() == 2);
        let b0 = b[0] as int;
        let b1 = b[1] as int;
        lemma_sextet_char_injective(a0 / 4, b0 / 4);
        lemma_sextet_char_injective((a0 % 4) * 16 + a1 / 16, (b0 % 4) * 16 + b1 / 16);
        lemma_sextet_char_injective((a1 % 16) * 4, (b1 % 16) * 4);
        lemma_sextets_determine_bytes(a0, a1, 0, b0, b1, 0);
        assert(a =~= b);
    } else {
        let a0 = a[0] as int;
        let a1 = a[1] as int;
        let a2 = a[2] as int;
        let qa = full_quad(a0, a1, a2);
        let ra = base64_encode(a.subrange(3, a.len() as int));
        assert(s == qa + ra);
        assert(s[3] == qa[3]);
        lemma_sextet_char_injective(a2 % 64, 0);
        assert(s[3] != '=');
        if b.len() == 1 {
            assert(s[3] == one_byte_quad(b[0] as int)[3]);
        } else if b.len() == 2 {
            assert(s[3] == two_byte_quad(b[0] as int, b[1] as int)[3]);
        }
        assert(b.len() >= 3);
        let b0 = b[0] as int;
        let b1 = b[1] as int;
        let b2 = b[2] as int;
        let qb = full_quad(b0, b1, b2);
        let rb = base64_encode(b.subrange(3, b.len() as int));
        assert(s == qb + rb);
        assert(qa[0] == s[0] && qb[0] == s[0]);
        assert(qa[1] == s[1] && qb[1] == s[1]);
        assert(qa[2] == s[2] && qb[2] == s[2]);
        assert(qa[3] == s[3] && qb[3] == s[3]);
        lemma_sextet_char_injective(a0 / 4, b0 / 4);
        lemma_sextet_char_injective((a0 % 4) * 16 + a1 / 16, (b0 % 4) * 16 + b1 / 16);
        lemma_sextet_char_injective((a1 % 16) * 4 + a2 / 64, (b1 % 16) * 4 + b2 / 64);
        lemma_sextet_char_injective(a2 % 64, b2 % 64);
        lemma_sextets_determine_bytes(a0, a1, a2, b0, b1, b2);
        assert(ra =~= s.subrange(4, s.len() as int));
        assert(rb =~= s.subrange(4, s.len() as int));
        let ta = a.subrange(3, a.len() as int);
        let tb = b.subrange(3, b.len() as int);
        lemma_encode_injective(ta, tb);
        assert(a.len() == b.len());
        assert forall|i: int| 0 <= i < a.len() implies a[i] == b[i] by {
            if i >= 3 {
                assert(a[i] == ta[i - 3]);
                assert(b[i] == tb[i - 3]);
            }
        }
        assert(a =~= b);
    }
}

/// Decoding the encoding of some bytes gives those bytes back.
pub proof fn lemma_decode_encode(b: Seq<u8>)
    ensures
        base64_decoding(base64_encode(b)) == Some(b),
{
    let s = base64_encode(b);
    assert(exists|c: Seq<u8>| base64_encode(c) == s);
    let c = choose|c: Seq<u8>| base64_encode(c) == s;
    lemma_encode_injective(c, b);
}

} // verus!
