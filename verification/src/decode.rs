//! Fixed-width little-endian fields.
//!
//! A field is a slice of exactly two, four or eight bytes, least significant
//! byte first. Its value is modelled by [`le_value`]; every decoder returns
//! that number or says why it could not.

use vstd::prelude::*;

verus! {

/// Why a field could not be decoded.
#[derive(Clone, Copy, Debug, PartialEq, Eq)]
pub enum DecodeError {
    /// The slice holds `actual` bytes where the target type takes `expected`.
    LengthMismatch { expected: usize, actual: usize },
}

/// The widths a field can have.
#[derive(Clone, Copy, Debug, PartialEq, Eq, Structural)]
pub enum Width {
    Two,
    Four,
    Eight,
}

impl Width {
    /// Number of bytes in a field of this width.
    pub open spec fn spec_bytes(self) -> nat {
        match self {
            Width::Two => 2,
            Width::Four => 4,
            Width::Eight => 8,
        }
    }

    /// Number of bytes in a field of this width.
    pub fn bytes(self) -> (n: usize)
        ensures
            n == self.spec_bytes(),
    {
        match self {
            Width::Two => 2,
            Width::Four => 4,
            Width::Eight => 8,
        }
    }
}

/// The error for a slice of `actual` bytes where `expected` were due.
pub open spec fn length_mismatch(expected: nat, actual: nat) -> DecodeError {
    DecodeError::LengthMismatch { expected: expected as usize, actual: actual as usize }
}

/// `256` to the power `n`: the weight of byte `n` of a field.
pub open spec fn radix_pow(n: nat) -> nat
    decreases n,
{
    if n == 0 {
        1
    } else {
        256 * radix_pow((n - 1) as nat)
    }
}

/// The number that `bytes` spell when read least significant byte first:
/// the sum of `bytes[i] * 256^i`.
pub open spec fn le_value(bytes: Seq<u8>) -> nat
    decreases bytes.len(),
{
    if bytes.len() == 0 {
        0
    } else {
        bytes[0] as nat + 256 * le_value(bytes.skip(1))
    }
}

/// The `width` low base-256 digits of `value`, least significant first.
pub open spec fn le_bytes(value: nat, width: nat) -> Seq<u8>
    decreases width,
{
    if width == 0 {
        Seq::empty()
    } else {
        seq![(value % 256) as u8] + le_bytes(value / 256, (width - 1) as nat)
    }
}

/// The weights of the bytes of the widest field, and the bound they give.
pub proof fn lemma_radix_pow_values()
    ensures
        radix_pow(0) == 1,
        radix_pow(1) == 0x100,
        radix_pow(2) == 0x1_0000,
        radix_pow(3) == 0x100_0000,
        radix_pow(4) == 0x1_0000_0000,
        radix_pow(5) == 0x100_0000_0000,
        radix_pow(6) == 0x1_0000_0000_0000,
        radix_pow(7) == 0x100_0000_0000_0000,
        radix_pow(8) == 0x1_0000_0000_0000_0000,
{
    reveal_with_fuel(radix_pow, 9);
}

/// A field of `n` bytes spells a number below `256^n`.
pub proof fn lemma_le_value_bound(bytes: Seq<u8>)
    ensures
        le_value(bytes) < radix_pow(bytes.len()),
    decreases bytes.len(),
{
    if bytes.len() > 0 {
        lemma_le_value_bound(bytes.skip(1));
    }
}

/// Encoding always yields exactly `width` bytes.
pub proof fn lemma_le_bytes_len(value: nat, width: nat)
    ensures
        le_bytes(value, width).len() == width,
    decreases width,
{
    if width > 0 {
        lemma_le_bytes_len(value / 256, (width - 1) as nat);
    }
}

/// Round trip, bytes first: decoding a field and encoding the result at the
/// field's own width gives the field back, byte for byte.
pub proof fn lemma_decode_then_encode(bytes: Seq<u8>)
    ensures
        le_bytes(le_value(bytes), bytes.len()) == bytes,
    decreases bytes.len(),
{
    if bytes.len() > 0 {
        let rest = bytes.skip(1);
        let high = le_value(rest);
        lemma_decode_then_encode(rest);
        assert((bytes[0] as nat + 256 * high) % 256 == bytes[0] as nat
            && (bytes[0] as nat + 256 * high) / 256 == high) by (nonlinear_arith)
            requires
                bytes[0] as nat <= 255,
        ;
        assert(seq![bytes[0]] + rest =~= bytes);
    } else {
        assert(le_bytes(0, 0) =~= bytes);
    }
}

/// Round trip, value first: a number below `256^width` is what its `width`
/// encoded bytes decode to.
pub proof fn lemma_encode_then_decode(value: nat, width: nat)
    requires
        value < radix_pow(width),
    ensures
        le_value(le_bytes(value, width)) == value,
    decreases width,
{
    if width > 0 {
        let low = seq![(value % 256) as u8];
        let high = le_bytes(value / 256, (width - 1) as nat);
        assert(value / 256 < radix_pow((width - 1) as nat) && value == (value % 256) + 256 * (value
            / 256)) by (nonlinear_arith)
            requires
                value < 256 * radix_pow((width - 1) as nat),
        ;
        lemma_encode_then_decode(value / 256, (width - 1) as nat);
        assert((low + high).skip(1) =~= high);
        assert((low + high)[0] == (value % 256) as u8);
    }
}

/// Two fields of one width that spell the same number are the same bytes.
pub proof fn lemma_le_value_injective(a: Seq<u8>, b: Seq<u8>)
    requires
        a.len() == b.len(),
        le_value(a) == le_value(b),
    ensures
        a == b,
{
    lemma_decode_then_encode(a);
    lemma_decode_then_encode(b);
}

/// Reads up to eight bytes, least significant first.
pub(crate) fn le_fold(bytes: &[u8]) -> (value: u64)
    requires
        bytes@.len() <= 8,
    ensures
        value == le_value(bytes@),
{
    let mut value: u64 = 0;
    let mut i: usize = bytes.len();
    proof {
        assert(bytes@.skip(i as int) =~= Seq::<u8>::empty());
    }
    while i > 0
        invariant
            i <= bytes@.len() <= 8,
            value == le_value(bytes@.skip(i as int)),
        decreases i,
    {
        proof {
            lemma_le_value_bound(bytes@.skip(i as int));
            lemma_radix_pow_values();
            assert(bytes@.skip(i - 1).skip(1) =~= bytes@.skip(i as int));
        }
        i = i - 1;
        value = value * 256 + bytes[i] as u64;
    }
    proof {
        assert(bytes@.skip(0) =~= bytes@);
    }
    value
}

/// Decodes a field of the given width into the number it spells.
///
/// Fails, without reading a byte, unless the slice is exactly as long as
/// the width.
pub fn parse_le(source: &[u8], width: Width) -> (decoded: Result<u64, DecodeError>)
    ensures
        source@.len() == width.spec_bytes() ==> decoded is Ok && decoded->Ok_0 == le_value(source@),
        source@.len() != width.spec_bytes() ==> decoded == Err::<u64, DecodeError>(
            length_mismatch(width.spec_bytes(), source@.len()),
        ),
{
    let expected = width.bytes();
    if source.len() != expected {
        return Err(DecodeError::LengthMismatch { expected, actual: source.len() });
    }
    Ok(le_fold(source))
}

/// Decodes two bytes into a `u16`.
pub fn parse_u16_le(source: &[u8]) -> (decoded: Result<u16, DecodeError>)
    ensures
        source@.len() == 2 ==> decoded is Ok && decoded->Ok_0 == le_value(source@),
        source@.len() != 2 ==> decoded == Err::<u16, DecodeError>(length_mismatch(2, source@.len())),
{
    match parse_le(source, Width::Two) {
        Ok(value) => {
            proof {
                lemma_le_value_bound(source@);
                lemma_radix_pow_values();
            }
            Ok(value as u16)
        },
        Err(e) => Err(e),
    }
}

/// Decodes four bytes into a `u32`.
pub fn parse_u32_le(source: &[u8]) -> (decoded: Result<u32, DecodeError>)
    ensures
        source@.len() == 4 ==> decoded is Ok && decoded->Ok_0 == le_value(source@),
        source@.len() != 4 ==> decoded == Err::<u32, DecodeError>(length_mismatch(4, source@.len())),
{
    match parse_le(source, Width::Four) {
        Ok(value) => {
            proof {
                lemma_le_value_bound(source@);
                lemma_radix_pow_values();
            }
            Ok(value as u32)
        },
        Err(e) => Err(e),
    }
}

/// Decodes eight bytes into a `u64`. A field that holds an IEEE-754 double
/// decodes to the bit pattern of the double.
pub fn parse_u64_le(source: &[u8]) -> (decoded: Result<u64, DecodeError>)
    ensures
        source@.len() == 8 ==> decoded is Ok && decoded->Ok_0 == le_value(source@),
        source@.len() != 8 ==> decoded == Err::<u64, DecodeError>(length_mismatch(8, source@.len())),
{
    parse_le(source, Width::Eight)
}

} // verus!
