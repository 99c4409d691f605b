//! Short fingerprints of device identifiers, used to derive resource names.
//!
//! A fingerprint is the BLAKE2b hash of the identifier's UTF-8 bytes, cut to a
//! few bytes and written in lower-case hexadecimal. With the default width of
//! four bytes two identifiers out of some 77,000 are more likely than not to
//! share a fingerprint: a deployment with many devices should ask for more.
use blake2::digest::{Update, VariableOutput};
use blake2::VarBlake2b;
use vstd::prelude::*;
use vstd::utf8::encode_utf8;

verus! {

/// The number of hash bytes in a fingerprint made by [`generate_digest`].
pub const DIGEST_WIDTH: usize = 4;

/// The largest number of bytes that BLAKE2b can give out.
pub const MAX_DIGEST_WIDTH: usize = 64;

/// The lower-case hexadecimal digit of a value below sixteen.
pub open spec fn hex_char(nibble: int) -> char {
    seq!['0', '1', '2', '3', '4', '5', '6', '7', '8', '9', 'a', 'b', 'c', 'd', 'e', 'f'][nibble]
}

/// Two hexadecimal digits for each byte, the high half first.
pub open spec fn hex_of(bytes: Seq<u8>) -> Seq<char> {
    Seq::new(
        2 * bytes.len(),
        |i: int|
            if i % 2 == 0 {
                hex_char(bytes[i / 2] as int / 16)
            } else {
                hex_char(bytes[i / 2] as int % 16)
            },
    )
}

/// Whether `c` is a digit or one of the letters `a` to `f`.
pub open spec fn is_lower_hex(c: char) -> bool {
    ('0' <= c && c <= '9') || ('a' <= c && c <= 'f')
}

/// The BLAKE2b hash of `data`, unkeyed and with an output of `output_size` bytes,
/// as the `blake2` crate computes it.
pub uninterp spec fn blake2b_var(data: Seq<u8>, output_size: nat) -> Seq<u8>;

/// The fingerprint of `id` that is `width` hash bytes wide.
pub open spec fn digest_of_width(id: Seq<char>, width: nat) -> Seq<char> {
    hex_of(blake2b_var(encode_utf8(id), width))
}

/// The fingerprint of `id` at the default width.
pub open spec fn digest_of(id: Seq<char>) -> Seq<char> {
    digest_of_width(id, DIGEST_WIDTH as nat)
}

/// A fingerprint depends on the identifier alone: whenever and wherever it is
/// computed, one identifier has one fingerprint.
pub proof fn lemma_same_identifier_same_digest(a: Seq<char>, b: Seq<char>)
    requires
        a == b,
    ensures
        digest_of(a) == digest_of(b),
{
}

/// Every character of a hexadecimal rendering is a lower-case hexadecimal digit,
/// and there are two of them for each byte.
pub proof fn lemma_hex_shape(bytes: Seq<u8>)
    ensures
        hex_of(bytes).len() == 2 * bytes.len(),
        forall|i: int| 0 <= i < hex_of(bytes).len() ==> is_lower_hex(#[trigger] hex_of(bytes)[i]),
{
    assert forall|i: int| 0 <= i < hex_of(bytes).len() implies is_lower_hex(
        #[trigger] hex_of(bytes)[i],
    ) by {
        let high = bytes[i / 2] as int / 16;
        let low = bytes[i / 2] as int % 16;
        assert(0 <= high < 16 && 0 <= low < 16);
        lemma_hex_char_is_hex(high);
        lemma_hex_char_is_hex(low);
    }
}

/// Each of the sixteen digits is a lower-case hexadecimal digit.
pub proof fn lemma_hex_char_is_hex(nibble: int)
    requires
        0 <= nibble < 16,
    ensures
        is_lower_hex(hex_char(nibble)),
{
}

/// The hexadecimal digit of `nibble` as a one-character string.
fn hex_digit(nibble: u8) -> (r: &'static str)
    requires
        nibble < 16,
    ensures
        r@ == seq![hex_char(nibble as int)],
{
    proof {
        reveal_strlit("0");
        reveal_strlit("1");
        reveal_strlit("2");
        reveal_strlit("3");
        reveal_strlit("4");
        reveal_strlit("5");
        reveal_strlit("6");
        reveal_strlit("7");
        reveal_strlit("8");
        reveal_strlit("9");
        reveal_strlit("a");
        reveal_strlit("b");
        reveal_strlit("c");
        reveal_strlit("d");
        reveal_strlit("e");
        reveal_strlit("f");
    }
    let r = match nibble {
        0 => "0",
        1 => "1",
        2 => "2",
        3 => "3",
        4 => "4",
        5 => "5",
        6 => "6",
        7 => "7",
        8 => "8",
        9 => "9",
        10 => "a",
        11 => "b",
        12 => "c",
        13 => "d",
        14 => "e",
        _ => "f",
    };
    assert(r@ =~= seq![hex_char(nibble as int)]);
    r
}

/// Writes `bytes` in lower-case hexadecimal, two digits for each byte.
pub fn hex_lower(bytes: &[u8]) -> (r: String)
    ensures
        r@ == hex_of(bytes@),
{
    let mut out = String::new();
    let mut i: usize = 0;
    while i < bytes.len()
        invariant
            i <= bytes@.len(),
            out@ == hex_of(bytes@.take(i as int)),
        decreases bytes@.len() - i,
    {
        let byte: u8 = bytes[i];
        let ghost before = out@;
        out.append(hex_digit(byte / 16));
        out.append(hex_digit(byte % 16));
        assert(out@ =~= hex_of(bytes@.take(i + 1))) by {
            let next = hex_of(bytes@.take(i + 1));
            assert(before =~= next.take(2 * i));
        }
        i = i + 1;
    }
    assert(bytes@.take(i as int) =~= bytes@);
    out
}

/// Hashes `data` with the `blake2` crate: `VarBlake2b::new`, `update` and
/// `finalize_boxed`. Believed, not proved: the hasher is made exactly for the
/// sizes from 1 to 64; the bytes that come out are a function of `data` and of
/// `output_size` alone, and there are `output_size` of them.
#[verifier::external_body]
fn blake2b(data: &[u8], output_size: usize) -> (r: Option<Vec<u8>>)
    ensures
        r is Some <==> 1 <= output_size <= MAX_DIGEST_WIDTH,
        r matches Some(out) ==> out@ == blake2b_var(data@, output_size as nat) && out@.len()
            == output_size,
{
    let mut hasher = VarBlake2b::new(output_size).ok()?;
    hasher.update(data);
    Some(hasher.finalize_boxed().into_vec())
}

/// The fingerprint of `id_to_digest` that is `width` hash bytes wide, or `None`
/// where BLAKE2b has no output of that width.
pub fn generate_digest_of_width(id_to_digest: &str, width: usize) -> (r: Option<String>)
    ensures
        r is Some <==> 1 <= width <= MAX_DIGEST_WIDTH,
        r matches Some(digest) ==> {
            &&& digest@ == digest_of_width(id_to_digest@, width as nat)
            &&& digest@.len() == 2 * width
            &&& forall|i: int| 0 <= i < digest@.len() ==> is_lower_hex(#[trigger] digest@[i])
        },
{
    match blake2b(id_to_digest.as_bytes(), width) {
        Some(hash) => {
            proof {
                lemma_hex_shape(hash@);
            }
            Some(hex_lower(hash.as_slice()))
        },
        None => None,
    }
}

/// The fingerprint of `id_to_digest`: eight lower-case hexadecimal digits that
/// depend on the identifier's characters alone.
pub fn generate_digest(id_to_digest: &str) -> (r: String)
    ensures
        r@ == digest_of(id_to_digest@),
        r@.len() == 2 * DIGEST_WIDTH,
        forall|i: int| 0 <= i < r@.len() ==> is_lower_hex(#[trigger] r@[i]),
{
    generate_digest_of_width(id_to_digest, DIGEST_WIDTH).unwrap()
}

} // verus!
