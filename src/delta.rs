//! Deferred numeric deltas and the encoding of the values they act on.
use vstd::prelude::*;
use vstd::arithmetic::div_mod::lemma_breakdown;

verus! {

/// The number of bytes that encode an aggregator value.
pub const VALUE_BYTES: usize = 16;

/// The number that `s` encodes, least significant byte first.
pub open spec fn le_value(s: Seq<u8>) -> nat
    decreases s.len(),
{
    if s.len() == 0 {
        0
    } else {
        s[0] as nat + 256 * le_value(s.drop_first())
    }
}

/// The `n` bytes of `v`, least significant first.
pub open spec fn le_bytes(v: nat, n: nat) -> Seq<u8>
    decreases n,
{
    if n == 0 {
        Seq::empty()
    } else {
        seq![(v % 256) as u8] + le_bytes(v / 256, (n - 1) as nat)
    }
}

/// 256 to the power `n`.
pub open spec fn byte_range(n: nat) -> nat
    decreases n,
{
    if n == 0 {
        1
    } else {
        256 * byte_range((n - 1) as nat)
    }
}

pub proof fn lemma_le_value_bound(s: Seq<u8>)
    ensures
        le_value(s) < byte_range(s.len()),
    decreases s.len(),
{
    if s.len() > 0 {
        lemma_le_value_bound(s.drop_first());
        let a = s[0] as nat;
        let b = le_value(s.drop_first());
        let c = byte_range(s.drop_first().len());
        assert(a + 256 * b < 256 * c) by (nonlinear_arith)
            requires
                a < 256,
                b < c,
        ;
    }
}

/// The value that an encoded aggregator holds: sixteen bytes, least
/// significant first.
pub open spec fn decode_spec(s: Seq<u8>) -> Option<u128> {
    if s.len() == VALUE_BYTES {
        Some(le_value(s) as u128)
    } else {
        None
    }
}

pub open spec fn encode_spec(v: u128) -> Seq<u8> {
    le_bytes(v as nat, VALUE_BYTES as nat)
}

/// The number that `bytes` encodes, least significant byte first, where it
/// has exactly `width` bytes.
pub fn decode_le(bytes: &Vec<u8>, width: usize) -> (r: Option<u128>)
    requires
        width <= VALUE_BYTES,
    ensures
        r == (if bytes@.len() == width {
            Some(le_value(bytes@) as u128)
        } else {
            None
        }),
        r is Some ==> le_value(bytes@) < byte_range(width as nat),
{
    if bytes.len() != width {
        return None;
    }
    let mut acc: u128 = 0;
    let mut i: usize = width;
    assert(bytes@.subrange(width as int, width as int) =~= Seq::<u8>::empty());
    while i > 0
        invariant
            i <= width <= 16,
            bytes@.len() == width,
            acc as nat == le_value(bytes@.subrange(i as int, width as int)),
        decreases i,
    {
        let ghost tail = bytes@.subrange(i as int, width as int);
        let ghost longer = bytes@.subrange(i - 1, width as int);
        assert(longer.drop_first() =~= tail);
        proof {
            lemma_le_value_bound(tail);
            reveal_with_fuel(byte_range, 16);
            assert(byte_range(15) == 0x1000000000000000000000000000000nat);
            assert(byte_range(tail.len()) <= byte_range(15)) by {
                assert(byte_range(0) <= byte_range(1) <= byte_range(2) <= byte_range(3)
                    <= byte_range(4) <= byte_range(5) <= byte_range(6) <= byte_range(7)
                    <= byte_range(8) <= byte_range(9) <= byte_range(10) <= byte_range(11)
                    <= byte_range(12) <= byte_range(13) <= byte_range(14) <= byte_range(15));
            }
        }
        acc = acc * 256 + bytes[i - 1] as u128;
        i = i - 1;
    }
    assert(bytes@.subrange(0, width as int) =~= bytes@);
    proof {
        lemma_le_value_bound(bytes@);
    }
    Some(acc)
}

pub fn decode_value(bytes: &Vec<u8>) -> (r: Option<u128>)
    ensures
        r == decode_spec(bytes@),
{
    decode_le(bytes, VALUE_BYTES)
}

pub fn encode_value(v: u128) -> (r: Vec<u8>)
    ensures
        r@ == encode_spec(v),
{
    let mut out: Vec<u8> = Vec::new();
    let mut rest: u128 = v;
    let mut i: usize = 0;
    while i < VALUE_BYTES
        invariant
            i <= 16,
            le_bytes(v as nat, 16) == out@ + le_bytes(rest as nat, (16 - i) as nat),
        decreases 16 - i,
    {
        let ghost before = out@;
        let ghost r = rest as nat;
        assert(le_bytes(r, (16 - i) as nat) == seq![(r % 256) as u8] + le_bytes(
            r / 256,
            (16 - i - 1) as nat,
        ));
        out.push((rest % 256) as u8);
        rest = rest / 256;
        i = i + 1;
        assert(before + (seq![(r % 256) as u8] + le_bytes(r / 256, (16 - i) as nat)) =~= out@
            + le_bytes(rest as nat, (16 - i) as nat));
    }
    assert(out@ + le_bytes(rest as nat, 0) =~= out@);
    out
}

/// Decoding the `n` bytes of `v` gives `v` modulo 256 to the power `n`.
pub proof fn lemma_le_bytes_value(v: nat, n: nat)
    ensures
        le_bytes(v, n).len() == n,
        le_value(le_bytes(v, n)) == v % byte_range(n),
    decreases n,
{
    if n > 0 {
        let m = (n - 1) as nat;
        lemma_le_bytes_value(v / 256, m);
        let s = le_bytes(v, n);
        assert(s.drop_first() =~= le_bytes(v / 256, m));
        assert(byte_range(m) > 0) by {
            lemma_byte_range_positive(m);
        }
        lemma_breakdown(v as int, 256, byte_range(m) as int);
    } else {
        assert(v % 1 == 0);
    }
}

proof fn lemma_byte_range_positive(n: nat)
    ensures
        byte_range(n) > 0,
    decreases n,
{
    if n > 0 {
        lemma_byte_range_positive((n - 1) as nat);
    }
}

/// An encoded value decodes to itself.
pub proof fn lemma_value_round_trip(v: u128)
    ensures
        decode_spec(encode_spec(v)) == Some(v),
{
    lemma_le_bytes_value(v as nat, 16);
    reveal_with_fuel(byte_range, 17);
    assert(byte_range(16) == 0x100000000000000000000000000000000nat);
    assert((v as nat) % byte_range(16) == v as nat);
}

/// How a delta changes a value.
#[derive(Clone, Copy, Debug, PartialEq, Eq, Structural)]
pub enum DeltaUpdate {
    Plus(u128),
    Minus(u128),
}

/// A pending change to an aggregator: the value may not rise above `limit`
/// nor fall below zero.
#[derive(Clone, Copy, Debug, PartialEq, Eq, Structural)]
pub struct DeltaOp {
    pub update: DeltaUpdate,
    pub limit: u128,
}

/// Why a delta could not be applied to a value.
#[derive(Clone, Copy, Debug, PartialEq, Eq, Structural)]
pub enum DeltaApplyError {
    Overflow,
    Underflow,
}

/// `base` changed by `op`, where the result stays within zero and the limit.
pub open spec fn apply_spec(op: DeltaOp, base: u128) -> Result<u128, DeltaApplyError> {
    match op.update {
        DeltaUpdate::Plus(v) => if base + v <= op.limit {
            Ok((base + v) as u128)
        } else {
            Err(DeltaApplyError::Overflow)
        },
        DeltaUpdate::Minus(v) => if v <= base {
            Ok((base - v) as u128)
        } else {
            Err(DeltaApplyError::Underflow)
        },
    }
}

impl DeltaOp {
    pub fn apply_to(&self, base: u128) -> (r: Result<u128, DeltaApplyError>)
        ensures
            r == apply_spec(*self, base),
    {
        match self.update {
            DeltaUpdate::Plus(v) => if v <= self.limit && base <= self.limit - v {
                Ok(base + v)
            } else {
                Err(DeltaApplyError::Overflow)
            },
            DeltaUpdate::Minus(v) => if v <= base {
                Ok(base - v)
            } else {
                Err(DeltaApplyError::Underflow)
            },
        }
    }
}

} // verus!
