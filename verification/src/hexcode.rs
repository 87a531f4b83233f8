//! Lowercase hexadecimal encoding: the byte-level specification, a
//! verified decoder, and hexadecimal rendering of 128-bit identifiers
//! for the canonical signed message.

use vstd::prelude::*;

verus! {

/// ASCII code of the lowercase hex digit for a nibble value.
pub open spec fn spec_hex_digit(v: u8) -> u8
    recommends
        v < 16,
{
    if v < 10 {
        (v + 0x30) as u8
    } else {
        (v + 0x57) as u8
    }
}

/// Whether a byte is the ASCII code of a hex digit, either case.
pub open spec fn spec_is_hex_digit(b: u8) -> bool {
    (0x30 <= b && b <= 0x39) || (0x61 <= b && b <= 0x66) || (0x41 <= b && b <= 0x46)
}

/// Nibble value of the ASCII code of a hex digit.
pub open spec fn spec_hex_val(b: u8) -> u8
    recommends
        spec_is_hex_digit(b),
{
    if 0x30 <= b && b <= 0x39 {
        (b - 0x30) as u8
    } else if 0x61 <= b && b <= 0x66 {
        (b - 0x57) as u8
    } else {
        (b - 0x37) as u8
    }
}

/// Lowercase hex encoding of a byte sequence: two digits per byte.
pub open spec fn spec_hex_encode(bs: Seq<u8>) -> Seq<u8>
    decreases bs.len(),
{
    if bs.len() == 0 {
        Seq::empty()
    } else {
        spec_hex_encode(bs.drop_last()) + seq![
            spec_hex_digit((bs.last() / 16) as u8),
            spec_hex_digit((bs.last() % 16) as u8),
        ]
    }
}

/// Decoding of a hex string given as ASCII bytes: defined exactly when
/// the length is even and every byte is a hex digit of either case.
pub open spec fn spec_hex_decode(bs: Seq<u8>) -> Option<Seq<u8>> {
    if bs.len() % 2 == 0 && (forall|i: int| 0 <= i < bs.len() ==> spec_is_hex_digit(#[trigger] bs[i])) {
        Some(
            Seq::new(
                (bs.len() / 2) as nat,
                |i: int| (spec_hex_val(bs[2 * i]) * 16 + spec_hex_val(bs[2 * i + 1])) as u8,
            ),
        )
    } else {
        None
    }
}

/// The nibble of a 128-bit value at position `i`, counted from the most
/// significant nibble.
pub open spec fn spec_u128_nibble(x: u128, i: int) -> u8
    recommends
        0 <= i < 32,
{
    (((x >> (((31 - i) * 4) as u128)) & 0xf) as u8)
}

/// Fixed-width (32 digit) lowercase hex rendering of a 128-bit value.
pub open spec fn spec_u128_hex(x: u128) -> Seq<u8> {
    Seq::new(32, |i: int| spec_hex_digit(spec_u128_nibble(x, i)))
}

/// Whether a byte is the ASCII code of a lowercase hex digit.
pub open spec fn spec_is_lower_hex_digit(b: u8) -> bool {
    (0x30 <= b && b <= 0x39) || (0x61 <= b && b <= 0x66)
}

/// Every hex encoding has twice the length of its input and holds
/// lowercase hex digits only.
pub proof fn lemma_hex_encode_props(bs: Seq<u8>)
    ensures
        spec_hex_encode(bs).len() == 2 * bs.len(),
        forall|i: int|
            0 <= i < spec_hex_encode(bs).len() ==> spec_is_hex_digit(#[trigger] spec_hex_encode(bs)[i]),
        forall|i: int|
            0 <= i < spec_hex_encode(bs).len() ==> spec_is_lower_hex_digit(
                #[trigger] spec_hex_encode(bs)[i],
            ),
    decreases bs.len(),
{
    if bs.len() > 0 {
        lemma_hex_encode_props(bs.drop_last());
    }
}

/// Decoding inverts encoding.
pub proof fn lemma_hex_decode_encode(bs: Seq<u8>)
    ensures
        spec_hex_decode(spec_hex_encode(bs)) == Some(bs),
    decreases bs.len(),
{
    lemma_hex_encode_props(bs);
    if bs.len() == 0 {
        assert(spec_hex_decode(spec_hex_encode(bs)).unwrap() =~= bs);
    } else {
        let prefix = bs.drop_last();
        lemma_hex_decode_encode(prefix);
        lemma_hex_encode_props(prefix);
        let enc = spec_hex_encode(bs);
        let dec = spec_hex_decode(enc).unwrap();
        let dec_prefix = spec_hex_decode(spec_hex_encode(prefix)).unwrap();
        assert forall|i: int| 0 <= i < dec.len() implies dec[i] == bs[i] by {
            if i < dec.len() - 1 {
                assert(enc[2 * i] == spec_hex_encode(prefix)[2 * i]);
                assert(enc[2 * i + 1] == spec_hex_encode(prefix)[2 * i + 1]);
                assert(dec_prefix[i] == prefix[i]);
            } else {
                let v = bs.last();
                assert(enc[2 * i] == spec_hex_digit((v / 16) as u8));
                assert(enc[2 * i + 1] == spec_hex_digit((v % 16) as u8));
                assert(spec_hex_val(spec_hex_digit((v / 16) as u8)) == v / 16);
                assert(spec_hex_val(spec_hex_digit((v % 16) as u8)) == v % 16);
                assert(v / 16 * 16 + v % 16 == v) by (nonlinear_arith);
            }
        }
        assert(dec =~= bs);
    }
}

/// ASCII code of the lowercase hex digit for a nibble value.
pub fn hex_digit_byte(v: u8) -> (r: u8)
    requires
        v < 16,
    ensures
        r == spec_hex_digit(v),
{
    if v < 10 {
        v + 0x30
    } else {
        v + 0x57
    }
}

/// Whether a byte is the ASCII code of a hex digit, either case.
pub fn is_hex_digit_byte(b: u8) -> (r: bool)
    ensures
        r == spec_is_hex_digit(b),
{
    (0x30 <= b && b <= 0x39) || (0x61 <= b && b <= 0x66) || (0x41 <= b && b <= 0x46)
}

/// Nibble value of the ASCII code of a hex digit.
pub fn hex_val_byte(b: u8) -> (r: u8)
    requires
        spec_is_hex_digit(b),
    ensures
        r == spec_hex_val(b),
{
    if 0x30 <= b && b <= 0x39 {
        b - 0x30
    } else if 0x61 <= b && b <= 0x66 {
        b - 0x57
    } else {
        b - 0x37
    }
}

/// Decode a hex string given as ASCII bytes; `None` exactly on input
/// whose length is odd or which holds a byte that is no hex digit.
pub fn hex_decode(bs: &[u8]) -> (r: Option<Vec<u8>>)
    ensures
        match r {
            Some(v) => spec_hex_decode(bs@) == Some(v@),
            None => spec_hex_decode(bs@) is None,
        },
{
    let n = bs.len();
    if n % 2 != 0 {
        return None;
    }
    let mut out: Vec<u8> = Vec::new();
    let mut i: usize = 0;
    while i < n / 2
        invariant
            n == bs@.len(),
            n % 2 == 0,
            0 <= i <= n / 2,
            out@.len() == i,
            forall|j: int| 0 <= j < 2 * i ==> spec_is_hex_digit(#[trigger] bs@[j]),
            forall|j: int|
                0 <= j < i ==> out@[j] == (spec_hex_val(bs@[2 * j]) * 16 + spec_hex_val(
                    bs@[2 * j + 1],
                )) as u8,
        decreases n / 2 - i,
    {
        let hi = bs[2 * i];
        let lo = bs[2 * i + 1];
        if !is_hex_digit_byte(hi) || !is_hex_digit_byte(lo) {
            return None;
        }
        out.push(hex_val_byte(hi) * 16 + hex_val_byte(lo));
        i = i + 1;
    }
    proof {
        assert(spec_hex_decode(bs@).unwrap() =~= out@);
    }
    Some(out)
}

/// Fixed-width (32 digit) lowercase hex rendering of a 128-bit value.
pub fn u128_hex(x: u128) -> (r: Vec<u8>)
    ensures
        r@ == spec_u128_hex(x),
{
    let mut out: Vec<u8> = Vec::new();
    let mut i: usize = 0;
    while i < 32
        invariant
            0 <= i <= 32,
            out@.len() == i,
            forall|j: int| 0 <= j < i ==> out@[j] == spec_u128_hex(x)[j],
        decreases 32 - i,
    {
        let sh: u128 = ((31 - i) * 4) as u128;
        let nib: u128 = (x >> sh) & 0xf;
        proof {
            lemma_mask_nibble_bound(x >> sh);
        }
        out.push(hex_digit_byte(nib as u8));
        i = i + 1;
    }
    proof {
        assert(out@ =~= spec_u128_hex(x));
    }
    out
}

proof fn lemma_mask_nibble_bound(y: u128)
    ensures
        y & 0xf < 16,
{
    assert(y & 0xf < 16) by (bit_vector);
}

} // verus!
