//! The byte codec behind the type-erased access surface: a value of any
//! scalar kind travels as its little-endian two's-complement image over the
//! kind's width in bytes, and a boolean as a single byte where any nonzero
//! value reads back as true. The wire layout is the native scalar
//! representation of the little-endian targets this runtime serves; no
//! endianness conversion is performed here, so a transport crossing to a
//! big-endian host must convert on its own side. Encoding and decoding are
//! proved inverse over every kind.

use vstd::arithmetic::div_mod::{lemma_fundamental_div_mod, lemma_multiply_divide_lt};
use vstd::prelude::*;

use crate::model::{in_range, kind_max, kind_min, signed, width, Kind};

verus! {

/// 256 raised to `n`: the number of values `n` bytes can carry.
pub open spec fn pow256(n: nat) -> nat
    decreases n,
{
    if n == 0 {
        1
    } else {
        256 * pow256((n - 1) as nat)
    }
}

/// The little-endian digits of `n` over `w` bytes.
pub open spec fn le_bytes(n: nat, w: nat) -> Seq<u8>
    decreases w,
{
    if w == 0 {
        Seq::empty()
    } else {
        seq![(n % 256) as u8] + le_bytes(n / 256, (w - 1) as nat)
    }
}

/// The number carried by a little-endian digit sequence.
pub open spec fn le_value(s: Seq<u8>) -> nat
    decreases s.len(),
{
    if s.len() == 0 {
        0
    } else {
        s.first() as nat + 256 * le_value(s.drop_first())
    }
}

/// The unsigned representative of `v` under kind `k`: a negative value is
/// shifted up by the kind's span, as in two's complement.
pub open spec fn to_offset(k: Kind, v: int) -> int {
    if v < 0 {
        v + pow256(width(k))
    } else {
        v
    }
}

/// The value of kind `k` read back from an unsigned representative `n`: a
/// boolean reads true from any nonzero byte, a signed kind folds the upper
/// half of the span down, as in two's complement.
pub open spec fn of_offset(k: Kind, n: int) -> int {
    if k is Bool {
        if n > 0 {
            1
        } else {
            0
        }
    } else if signed(k) && n >= pow256(width(k)) / 2 {
        n - pow256(width(k))
    } else {
        n
    }
}

/// The byte image of value `v` of kind `k`.
pub open spec fn encode_bytes(k: Kind, v: int) -> Seq<u8> {
    le_bytes(to_offset(k, v) as nat, width(k))
}

/// The value of kind `k` carried by the byte sequence `s`.
pub open spec fn decode_val(k: Kind, s: Seq<u8>) -> int {
    of_offset(k, le_value(s) as int)
}

/// The concrete powers of 256 for every width in use.
pub proof fn lemma_pow256_values()
    ensures
        pow256(0) == 1,
        pow256(1) == 256,
        pow256(2) == 65536,
        pow256(4) == 4294967296,
        pow256(8) == 18446744073709551616,
{
    assert(pow256(0) == 1);
    assert(pow256(1) == 256);
    assert(pow256(2) == 65536);
    assert(pow256(3) == 16777216);
    assert(pow256(4) == 4294967296);
    assert(pow256(5) == 1099511627776);
    assert(pow256(6) == 281474976710656);
    assert(pow256(7) == 72057594037927936);
    assert(pow256(8) == 18446744073709551616);
}

/// How each kind's range sits inside the span of its width: an unsigned
/// kind fills the span from zero, a signed kind is centred on it.
pub proof fn lemma_kind_fits(k: Kind)
    ensures
        !signed(k) ==> kind_min(k) == 0 && kind_max(k) < pow256(width(k)),
        signed(k) ==> kind_min(k) == -(pow256(width(k)) / 2) && kind_max(k) == pow256(width(k))
            / 2 - 1,
{
    lemma_pow256_values();
}

/// Reading back the little-endian digits of any `n` that fits in `w` bytes
/// yields `n` again.
pub proof fn lemma_le_round_trip(n: nat, w: nat)
    requires
        n < pow256(w),
    ensures
        le_bytes(n, w).len() == w,
        le_value(le_bytes(n, w)) == n,
    decreases w,
{
    if w > 0 {
        let rest: nat = n / 256;
        assert(rest < pow256((w - 1) as nat)) by {
            lemma_multiply_divide_lt(n as int, 256, pow256((w - 1) as nat) as int);
        }
        lemma_le_round_trip(rest, (w - 1) as nat);
        let s = le_bytes(n, w);
        assert(s.drop_first() =~= le_bytes(rest, (w - 1) as nat));
        assert(n == 256 * rest + n % 256) by {
            lemma_fundamental_div_mod(n as int, 256);
        }
    }
}

/// Codec round trip: for every kind, decoding the byte image of an
/// in-range value yields that value again, bit for bit.
pub proof fn lemma_codec_round_trip(k: Kind, v: int)
    requires
        in_range(k, v),
    ensures
        encode_bytes(k, v).len() == width(k),
        decode_val(k, encode_bytes(k, v)) == v,
{
    lemma_kind_fits(k);
    lemma_pow256_values();
    let n = to_offset(k, v);
    assert(0 <= n < pow256(width(k)));
    lemma_le_round_trip(n as nat, width(k));
}

/// The width in bytes of kind `k`, for executable code.
pub fn width_ex(k: Kind) -> (w: usize)
    ensures
        w as nat == width(k),
        w == 1 || w == 2 || w == 4 || w == 8,
{
    match k {
        Kind::U8 => 1,
        Kind::I8 => 1,
        Kind::U16 => 2,
        Kind::I16 => 2,
        Kind::U32 => 4,
        Kind::I32 => 4,
        Kind::U64 => 8,
        Kind::I64 => 8,
        Kind::Bool => 1,
    }
}

/// Whether kind `k` is signed, for executable code.
fn signed_ex(k: Kind) -> (s: bool)
    ensures
        s == signed(k),
{
    match k {
        Kind::I8 => true,
        Kind::I16 => true,
        Kind::I32 => true,
        Kind::I64 => true,
        _ => false,
    }
}

/// 256 raised to a codec width, for executable code.
fn pow256_ex(w: usize) -> (r: i128)
    requires
        w == 1 || w == 2 || w == 4 || w == 8,
    ensures
        r as int == pow256(w as nat),
{
    proof {
        lemma_pow256_values();
    }
    match w {
        1 => 256,
        2 => 65536,
        4 => 4294967296,
        _ => 18446744073709551616,
    }
}

/// The little-endian digits of `n` over `w` bytes.
fn encode_le(n: u128, w: usize) -> (r: Vec<u8>)
    ensures
        r@ == le_bytes(n as nat, w as nat),
    decreases w,
{
    if w == 0 {
        Vec::new()
    } else {
        let mut r: Vec<u8> = Vec::new();
        r.push((n % 256) as u8);
        let mut tail: Vec<u8> = encode_le(n / 256, w - 1);
        r.append(&mut tail);
        r
    }
}

/// The number carried by `w` little-endian digits of `buffer` from
/// position `i`.
fn decode_le(buffer: &Vec<u8>, i: usize, w: usize) -> (r: u128)
    requires
        i + w <= buffer@.len(),
        w <= 8,
    ensures
        r as nat == le_value(buffer@.subrange(i as int, i as int + w as int)),
        (r as nat) < pow256(w as nat),
    decreases w,
{
    proof {
        lemma_pow256_values();
    }
    if w == 0 {
        assert(buffer@.subrange(i as int, i as int) =~= Seq::<u8>::empty());
        0
    } else {
        let b: u8 = buffer[i];
        let len: usize = buffer.len();
        let rest: u128 = decode_le(buffer, i + 1, w - 1);
        proof {
            let s = buffer@.subrange(i as int, i as int + w as int);
            assert(s.first() == b);
            assert(s.drop_first() =~= buffer@.subrange(i as int + 1, i as int + w as int));
            assert(pow256((w - 1) as nat) <= pow256(7)) by {
                if w < 8 {
                    assert(pow256((w - 1) as nat) <= pow256(7));
                }
            }
        }
        b as u128 + 256 * rest
    }
}

/// The unsigned representative of in-range value `v` under kind `k`.
fn offset_of(k: Kind, v: i128) -> (n: u128)
    requires
        in_range(k, v as int),
    ensures
        n as int == to_offset(k, v as int),
        (n as nat) < pow256(width(k)),
{
    proof {
        lemma_kind_fits(k);
        lemma_pow256_values();
    }
    let w: usize = width_ex(k);
    if v >= 0 {
        v as u128
    } else {
        (v + pow256_ex(w)) as u128
    }
}

/// The value of kind `k` read back from unsigned representative `n`.
fn unoffset(k: Kind, n: u128) -> (v: i128)
    requires
        (n as nat) < pow256(width(k)),
    ensures
        v as int == of_offset(k, n as int),
        in_range(k, v as int),
{
    proof {
        lemma_kind_fits(k);
        lemma_pow256_values();
    }
    let w: usize = width_ex(k);
    if matches!(k, Kind::Bool) {
        if n > 0 {
            1
        } else {
            0
        }
    } else if signed_ex(k) && n >= (pow256_ex(w) / 2) as u128 {
        n as i128 - pow256_ex(w)
    } else {
        n as i128
    }
}

/// The byte image of in-range value `v` of kind `k`.
pub fn encode_value(k: Kind, v: i128) -> (r: Vec<u8>)
    requires
        in_range(k, v as int),
    ensures
        r@ == encode_bytes(k, v as int),
        r@.len() == width(k),
{
    proof {
        lemma_codec_round_trip(k, v as int);
    }
    let n: u128 = offset_of(k, v);
    encode_le(n, width_ex(k))
}

/// The value of kind `k` carried by the first width-of-`k` bytes of
/// `buffer`.
pub fn decode_value(k: Kind, buffer: &Vec<u8>) -> (v: i128)
    requires
        buffer@.len() >= width(k),
    ensures
        v as int == decode_val(k, buffer@.subrange(0, width(k) as int)),
        in_range(k, v as int),
{
    let w: usize = width_ex(k);
    let n: u128 = decode_le(buffer, 0, w);
    unoffset(k, n)
}

} // verus!
