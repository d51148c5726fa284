//! Unsigned varints (LEB128 with the continuation bit in the high bit of
//! each byte), as produced and consumed by `multi_trait` for `usize`.
use multi_trait::Error as VarintDecodeError;
use vstd::prelude::*;

verus! {

/// One past the largest `usize`: the decoder keeps the value modulo this.
pub open spec fn word_modulus() -> int {
    usize::MAX as int + 1
}

/// Index of the last byte a `usize` varint may have: the tenth byte on a
/// 64-bit target, the fifth on a 32-bit one.
pub open spec fn last_group_index() -> nat {
    if usize::BITS == 64 {
        9
    } else {
        4
    }
}

/// `128^i`: the weight of the `i`-th seven-bit group.
pub open spec fn group_weight(i: nat) -> nat
    decreases i,
{
    if i == 0 {
        1
    } else {
        128 * group_weight((i - 1) as nat)
    }
}

/// The minimal varint encoding of `n`: low seven-bit groups first, every byte
/// but the last with its high bit set.
pub open spec fn varuint_encoding(n: nat) -> Seq<u8>
    decreases n,
{
    if n < 128 {
        seq![n as u8]
    } else {
        seq![((n % 128) + 128) as u8] + varuint_encoding(n / 128)
    }
}

/// Decoding of a varint `usize` from `s`, resumed at byte `i` with the groups
/// before `i` summing to `acc`. `None` stands for a missing final byte, a
/// last allowed byte that still has its continuation bit set, or a trailing zero
/// group in a multi-byte encoding. On success it gives the value (bits past
/// the width of `usize` dropped) and the number of bytes read.
pub open spec fn varuint_decoding_from(s: Seq<u8>, i: nat, acc: int) -> Option<(usize, nat)>
    decreases s.len() - i,
{
    if i >= s.len() {
        None
    } else {
        let b = s[i as int];
        let acc2 = acc + (b % 128) * group_weight(i);
        if b < 128 {
            if b == 0 && i > 0 {
                None
            } else {
                Some(((acc2 % word_modulus()) as usize, i + 1))
            }
        } else if i == last_group_index() {
            None
        } else {
            varuint_decoding_from(s, i + 1, acc2)
        }
    }
}

/// Decoding of a varint `usize` at the start of `s`.
pub open spec fn varuint_decoding(s: Seq<u8>) -> Option<(usize, nat)> {
    varuint_decoding_from(s, 0, 0)
}

/// `multi_trait::EncodeInto::encode_into` on a `usize`. The contract claims
/// that the bytes are the minimal varint encoding of `n` (the format that the
/// crate documents and that `unsigned_varint::encode::u64` writes).
#[verifier::external_body]
pub(crate) fn encode_usize(n: usize) -> (r: Vec<u8>)
    ensures
        r@ == varuint_encoding(n as nat),
{
    multi_trait::EncodeInto::encode_into(&n)
}

/// The error that `multi_trait` gives when a varint does not decode; it is
/// carried through as an opaque value.
#[verifier::external_type_specification]
#[verifier::external_body]
pub struct ExVaruintError(VarintDecodeError);

/// `multi_trait::TryDecodeFrom::try_decode_from` on a `usize`: the varint at
/// the start of `bytes` and the bytes after it. The contract claims that the
/// call succeeds exactly when `varuint_decoding` does, with the same value,
/// and that the remainder is what follows the bytes it read; this is the loop
/// of `unsigned_varint::decode::u64` (`u32` on a 32-bit target). The error
/// value is passed on as it is; which of its variants comes is not stated.
#[verifier::external_body]
pub(crate) fn decode_usize(bytes: &[u8]) -> (r: Result<(usize, &[u8]), VarintDecodeError>)
    ensures
        match r {
            Ok((n, rest)) => {
                &&& rest@.len() < bytes@.len()
                &&& varuint_decoding(bytes@) == Some((n, (bytes@.len() - rest@.len()) as nat))
                &&& rest@ == bytes@.skip(bytes@.len() - rest@.len())
            },
            Err(_) => varuint_decoding(bytes@) is None,
        },
{
    <usize as multi_trait::TryDecodeFrom>::try_decode_from(bytes)
}

/// The weight of the group after the last allowed one exceeds every `usize`.
proof fn lemma_group_weight_beyond_last()
    ensures
        group_weight(last_group_index() + 1) > usize::MAX,
{
    reveal_with_fuel(group_weight, 11);
    assert(group_weight(5) == 0x8_0000_0000nat);
    assert(group_weight(10) == 0x40_0000_0000_0000_0000nat);
}

/// Decoding, resumed after `prefix`, reads back the encoding of `m` placed
/// there: the groups of `m` are added at their weights and the bytes of the
/// encoding are consumed exactly.
proof fn lemma_decoding_from_encoding(prefix: Seq<u8>, m: nat, tail: Seq<u8>, acc: int)
    requires
        0 <= acc,
        acc + m * group_weight(prefix.len()) <= usize::MAX,
        prefix.len() > 0 ==> m > 0,
        prefix.len() <= last_group_index(),
    ensures
        varuint_decoding_from(prefix + varuint_encoding(m) + tail, prefix.len(), acc) == Some(
            (
                (acc + m * group_weight(prefix.len())) as usize,
                prefix.len() + varuint_encoding(m).len(),
            ),
        ),
    decreases m,
{
    let i = prefix.len();
    let s = prefix + varuint_encoding(m) + tail;
    let w = group_weight(i);
    assert(s[i as int] == varuint_encoding(m)[0]);
    if m < 128 {
        let total = acc + m * w;
        assert(0 <= total < word_modulus()) by (nonlinear_arith)
            requires
                0 <= acc,
                total == acc + m * w,
                total <= usize::MAX,
                word_modulus() == usize::MAX + 1,
        ;
        assert(total % word_modulus() == total) by (nonlinear_arith)
            requires
                0 <= total < word_modulus(),
        ;
    } else {
        let b = ((m % 128) + 128) as u8;
        assert(b % 128 == m % 128);
        assert(m * w == (m % 128) * w + (m / 128) * (128 * w)) by (nonlinear_arith)
            requires
                m == (m % 128) + 128 * (m / 128),
        ;
        assert(group_weight(i + 1) == 128 * w);
        assert(0 <= (m % 128) * w) by (nonlinear_arith);
        if i == last_group_index() {
            lemma_group_weight_beyond_last();
            assert(m * w >= group_weight(i + 1)) by (nonlinear_arith)
                requires
                    m >= 128,
                    group_weight(i + 1) == 128 * w,
                    w >= 0,
            ;
            assert(false);
        }
        let prefix2 = prefix.push(b);
        assert(s =~= prefix2 + varuint_encoding(m / 128) + tail);
        lemma_decoding_from_encoding(prefix2, m / 128, tail, acc + (m % 128) * w);
    }
}

/// A successful resumed decoding reads at least one byte past `i` and no
/// byte past the end of `s`.
proof fn lemma_decoding_from_bounds(s: Seq<u8>, i: nat, acc: int)
    ensures
        varuint_decoding_from(s, i, acc) matches Some((_, k)) ==> i < k <= s.len(),
    decreases s.len() - i,
{
    if i < s.len() && s[i as int] >= 128 && i != last_group_index() {
        lemma_decoding_from_bounds(s, i + 1, acc + (s[i as int] % 128) * group_weight(i));
    }
}

/// A successful decoding reads at least one byte and stays inside `s`.
pub proof fn lemma_varuint_decoding_reads_some(s: Seq<u8>)
    ensures
        varuint_decoding(s) matches Some((_, k)) ==> 0 < k <= s.len(),
{
    lemma_decoding_from_bounds(s, 0, 0);
}

/// A varint `usize` reads back as itself, whatever bytes follow it.
pub proof fn lemma_varuint_roundtrip(n: usize, tail: Seq<u8>)
    ensures
        varuint_decoding(varuint_encoding(n as nat) + tail) == Some(
            (n, varuint_encoding(n as nat).len()),
        ),
{
    let empty = Seq::<u8>::empty();
    assert(empty.len() == 0);
    assert(group_weight(0) == 1);
    lemma_decoding_from_encoding(empty, n as nat, tail, 0);
    assert(empty + varuint_encoding(n as nat) + tail =~= varuint_encoding(n as nat) + tail);
}

} // verus!
