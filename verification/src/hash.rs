//! Content hashing: a fast 64-bit digest for version fingerprints and a
//! cryptographic-strength digest for content-addressed asset paths, each
//! paired with a verified lowercase hexadecimal encoding.

use vstd::prelude::*;

verus! {

pub uninterp spec fn xxh3_hash64_of(bytes: Seq<u8>) -> u64;

/// Relies on `twox_hash::xxh3::hash64`: a 64-bit digest (seed 0, default
/// secret) that depends on the input bytes alone.
#[verifier::external_body]
pub(crate) fn xxh3_hash64(bytes: &Vec<u8>) -> (r: u64)
    ensures
        r == xxh3_hash64_of(bytes@),
{
    twox_hash::xxh3::hash64(bytes.as_slice())
}

pub uninterp spec fn md4_of(bytes: Seq<u8>) -> Seq<u8>;

/// Relies on `md4::Md4` through the `digest::Digest` trait: a 16-byte MD4
/// digest that depends on the input bytes alone.
#[verifier::external_body]
pub(crate) fn hash_md4(bytes: &Vec<u8>) -> (r: Vec<u8>)
    ensures
        r@ == md4_of(bytes@),
        r@.len() == 16,
{
    let digest = <md4::Md4 as md4::Digest>::digest(bytes.as_slice());
    digest.to_vec()
}

/// The lowercase hexadecimal digit for a value below 16.
pub open spec fn spec_hex_digit(n: int) -> char
    recommends
        0 <= n < 16,
{
    if n == 0 {
        '0'
    } else if n == 1 {
        '1'
    } else if n == 2 {
        '2'
    } else if n == 3 {
        '3'
    } else if n == 4 {
        '4'
    } else if n == 5 {
        '5'
    } else if n == 6 {
        '6'
    } else if n == 7 {
        '7'
    } else if n == 8 {
        '8'
    } else if n == 9 {
        '9'
    } else if n == 10 {
        'a'
    } else if n == 11 {
        'b'
    } else if n == 12 {
        'c'
    } else if n == 13 {
        'd'
    } else if n == 14 {
        'e'
    } else {
        'f'
    }
}

pub(crate) fn hex_digit_str(n: u8) -> (r: &'static str)
    requires
        n < 16,
    ensures
        r@ == seq![spec_hex_digit(n as int)],
{
    let digits = "0123456789abcdef";
    proof {
        reveal_strlit("0123456789abcdef");
    }
    let r = digits.substring_char(n as usize, n as usize + 1);
    proof {
        assert(r@ =~= seq![spec_hex_digit(n as int)]);
    }
    r
}

/// The `i`-th hexadecimal digit of `h`, counted from the most significant.
pub open spec fn spec_nibble(h: u64, i: int) -> u64
    recommends
        0 <= i < 16,
{
    (h >> ((60 - 4 * i) as u64)) & 0xf
}

/// A 64-bit value as 16 lowercase hexadecimal characters, most significant
/// digit first, zero padded.
pub open spec fn spec_hex_u64(h: u64) -> Seq<char> {
    Seq::new(16, |i: int| spec_hex_digit(spec_nibble(h, i) as int))
}

/// Encodes a 64-bit digest as its 16-character lowercase hexadecimal form.
pub fn encode_hex(h: u64) -> (r: String)
    ensures
        r@ == spec_hex_u64(h),
        r@.len() == 16,
{
    let mut r = String::new();
    let mut i: usize = 0;
    while i < 16
        invariant
            i <= 16,
            r@ == spec_hex_u64(h).take(i as int),
        decreases 16 - i,
    {
        let shift: u64 = 60 - 4 * (i as u64);
        let nib: u64 = (h >> shift) & 0xf;
        assert((h >> shift) & 0xf < 16) by (bit_vector);
        assert(nib == spec_nibble(h, i as int));
        r.append(hex_digit_str(nib as u8));
        proof {
            assert(r@ =~= spec_hex_u64(h).take(i + 1));
        }
        i += 1;
    }
    proof {
        assert(r@ =~= spec_hex_u64(h));
    }
    r
}

/// Law: the hexadecimal form determines the 64-bit value: equal encodings
/// come only from equal digests.
pub proof fn lemma_hex_u64_injective(h1: u64, h2: u64)
    requires
        spec_hex_u64(h1) == spec_hex_u64(h2),
    ensures
        h1 == h2,
{
    assert forall|i: int| 0 <= i < 16 implies spec_nibble(h1, i) == spec_nibble(h2, i) by {
        let s = (60 - 4 * i) as u64;
        let n1 = (h1 >> s) & 0xf;
        let n2 = (h2 >> s) & 0xf;
        assert((h1 >> s) & 0xf < 16 && (h2 >> s) & 0xf < 16) by (bit_vector);
        assert(spec_hex_u64(h1)[i] == spec_hex_digit(n1 as int));
        assert(spec_hex_u64(h2)[i] == spec_hex_digit(n2 as int));
        assert(spec_hex_u64(h1)[i] == spec_hex_u64(h2)[i]);
        assert(n1 == n2);
    }
    assert((h1 >> 60u64) & 0xf == (h2 >> 60u64) & 0xf) by {
        assert(spec_nibble(h1, 0) == spec_nibble(h2, 0));
    }
    assert((h1 >> 56u64) & 0xf == (h2 >> 56u64) & 0xf) by {
        assert(spec_nibble(h1, 1) == spec_nibble(h2, 1));
    }
    assert((h1 >> 52u64) & 0xf == (h2 >> 52u64) & 0xf) by {
        assert(spec_nibble(h1, 2) == spec_nibble(h2, 2));
    }
    assert((h1 >> 48u64) & 0xf == (h2 >> 48u64) & 0xf) by {
        assert(spec_nibble(h1, 3) == spec_nibble(h2, 3));
    }
    assert((h1 >> 44u64) & 0xf == (h2 >> 44u64) & 0xf) by {
        assert(spec_nibble(h1, 4) == spec_nibble(h2, 4));
    }
    assert((h1 >> 40u64) & 0xf == (h2 >> 40u64) & 0xf) by {
        assert(spec_nibble(h1, 5) == spec_nibble(h2, 5));
    }
    assert((h1 >> 36u64) & 0xf == (h2 >> 36u64) & 0xf) by {
        assert(spec_nibble(h1, 6) == spec_nibble(h2, 6));
    }
    assert((h1 >> 32u64) & 0xf == (h2 >> 32u64) & 0xf) by {
        assert(spec_nibble(h1, 7) == spec_nibble(h2, 7));
    }
    assert((h1 >> 28u64) & 0xf == (h2 >> 28u64) & 0xf) by {
        assert(spec_nibble(h1, 8) == spec_nibble(h2, 8));
    }
    assert((h1 >> 24u64) & 0xf == (h2 >> 24u64) & 0xf) by {
        assert(spec_nibble(h1, 9) == spec_nibble(h2, 9));
    }
    assert((h1 >> 20u64) & 0xf == (h2 >> 20u64) & 0xf) by {
        assert(spec_nibble(h1, 10) == spec_nibble(h2, 10));
    }
    assert((h1 >> 16u64) & 0xf == (h2 >> 16u64) & 0xf) by {
        assert(spec_nibble(h1, 11) == spec_nibble(h2, 11));
    }
    assert((h1 >> 12u64) & 0xf == (h2 >> 12u64) & 0xf) by {
        assert(spec_nibble(h1, 12) == spec_nibble(h2, 12));
    }
    assert((h1 >> 8u64) & 0xf == (h2 >> 8u64) & 0xf) by {
        assert(spec_nibble(h1, 13) == spec_nibble(h2, 13));
    }
    assert((h1 >> 4u64) & 0xf == (h2 >> 4u64) & 0xf) by {
        assert(spec_nibble(h1, 14) == spec_nibble(h2, 14));
    }
    assert((h1 >> 0u64) & 0xf == (h2 >> 0u64) & 0xf) by {
        assert(spec_nibble(h1, 15) == spec_nibble(h2, 15));
    }
    assert(h1 == h2) by (bit_vector)
        requires
            (h1 >> 60u64) & 0xf == (h2 >> 60u64) & 0xf,
            (h1 >> 56u64) & 0xf == (h2 >> 56u64) & 0xf,
            (h1 >> 52u64) & 0xf == (h2 >> 52u64) & 0xf,
            (h1 >> 48u64) & 0xf == (h2 >> 48u64) & 0xf,
            (h1 >> 44u64) & 0xf == (h2 >> 44u64) & 0xf,
            (h1 >> 40u64) & 0xf == (h2 >> 40u64) & 0xf,
            (h1 >> 36u64) & 0xf == (h2 >> 36u64) & 0xf,
            (h1 >> 32u64) & 0xf == (h2 >> 32u64) & 0xf,
            (h1 >> 28u64) & 0xf == (h2 >> 28u64) & 0xf,
            (h1 >> 24u64) & 0xf == (h2 >> 24u64) & 0xf,
            (h1 >> 20u64) & 0xf == (h2 >> 20u64) & 0xf,
            (h1 >> 16u64) & 0xf == (h2 >> 16u64) & 0xf,
            (h1 >> 12u64) & 0xf == (h2 >> 12u64) & 0xf,
            (h1 >> 8u64) & 0xf == (h2 >> 8u64) & 0xf,
            (h1 >> 4u64) & 0xf == (h2 >> 4u64) & 0xf,
            (h1 >> 0u64) & 0xf == (h2 >> 0u64) & 0xf,
    ;
}

/// A byte sequence as lowercase hexadecimal, two digits per byte, high
/// nibble first.
pub open spec fn spec_hex_bytes(s: Seq<u8>) -> Seq<char>
    decreases s.len(),
{
    if s.len() == 0 {
        Seq::empty()
    } else {
        spec_hex_bytes(s.drop_last()) + seq![
            spec_hex_digit(((s.last() >> 4) & 0xf) as int),
            spec_hex_digit((s.last() & 0xf) as int),
        ]
    }
}

/// Encodes a byte string as lowercase base-16, two digits per byte.
pub fn encode_base16(bytes: &Vec<u8>) -> (r: String)
    ensures
        r@ == spec_hex_bytes(bytes@),
{
    let mut r = String::new();
    let mut i: usize = 0;
    while i < bytes.len()
        invariant
            i <= bytes@.len(),
            r@ == spec_hex_bytes(bytes@.take(i as int)),
        decreases bytes@.len() - i,
    {
        let b: u8 = bytes[i];
        let hi: u8 = (b >> 4) & 0xf;
        let lo: u8 = b & 0xf;
        assert((b >> 4) & 0xf < 16) by (bit_vector);
        assert(b & 0xf < 16) by (bit_vector);
        r.append(hex_digit_str(hi));
        r.append(hex_digit_str(lo));
        proof {
            let taken = bytes@.take(i + 1);
            assert(taken.drop_last() =~= bytes@.take(i as int));
            assert(taken.last() == bytes@[i as int]);
            assert(r@ =~= spec_hex_bytes(taken));
        }
        i += 1;
    }
    proof {
        assert(bytes@.take(bytes@.len() as int) =~= bytes@);
    }
    r
}

} // verus!
