//! The binary wire format of scalars: big-endian numbers, two's complement
//! for the signed ones.

use vstd::prelude::*;

verus! {

/// The number of values that `len` bytes can tell apart: 256 to the power
/// of `len`.
pub open spec fn radix(len: nat) -> nat
    decreases len,
{
    if len == 0 {
        1
    } else {
        256 * radix((len - 1) as nat)
    }
}

/// The value of a byte sequence read as a big-endian number.
pub open spec fn be_value(bytes: Seq<u8>) -> nat
    decreases bytes.len(),
{
    if bytes.len() == 0 {
        0
    } else {
        be_value(bytes.drop_last()) * 256 + bytes.last() as nat
    }
}

/// The `len` low bytes of `n`, most significant first.
pub open spec fn be_bytes(n: nat, len: nat) -> Seq<u8>
    decreases len,
{
    if len == 0 {
        Seq::empty()
    } else {
        be_bytes(n / 256, (len - 1) as nat).push((n % 256) as u8)
    }
}

/// The number that stands for `v` in two's complement of `len` bytes.
pub open spec fn to_unsigned(v: int, len: nat) -> nat {
    if v < 0 {
        (v + radix(len)) as nat
    } else {
        v as nat
    }
}

/// The number for which `n` stands in two's complement of `len` bytes.
pub open spec fn to_signed(n: nat, len: nat) -> int {
    if 2 * n >= radix(len) {
        n - radix(len)
    } else {
        n as int
    }
}

/// The signed number that a byte sequence holds.
pub open spec fn signed_value(bytes: Seq<u8>) -> int {
    to_signed(be_value(bytes), bytes.len())
}

/// The bytes that hold the signed number `v` in `len` bytes.
pub open spec fn signed_bytes(v: int, len: nat) -> Seq<u8> {
    be_bytes(to_unsigned(v, len), len)
}

/// The first powers of 256.
pub proof fn lemma_radix_values()
    ensures
        radix(0) == 1,
        radix(1) == 0x100,
        radix(2) == 0x1_0000,
        radix(3) == 0x100_0000,
        radix(4) == 0x1_0000_0000,
        radix(5) == 0x100_0000_0000,
        radix(6) == 0x1_0000_0000_0000,
        radix(7) == 0x100_0000_0000_0000,
        radix(8) == 0x1_0000_0000_0000_0000,
{
    reveal_with_fuel(radix, 10);
}

/// `be_bytes` gives as many bytes as asked for.
pub proof fn lemma_be_bytes_len(n: nat, len: nat)
    ensures
        be_bytes(n, len).len() == len,
    decreases len,
{
    if len > 0 {
        lemma_be_bytes_len(n / 256, (len - 1) as nat);
    }
}

/// A byte sequence holds a number below the radix of its length.
pub proof fn lemma_be_value_bound(bytes: Seq<u8>)
    ensures
        be_value(bytes) < radix(bytes.len()),
    decreases bytes.len(),
{
    if bytes.len() > 0 {
        lemma_be_value_bound(bytes.drop_last());
    }
}

/// Reading the bytes of a number that fits gives the number back.
pub proof fn lemma_be_round_trip(n: nat, len: nat)
    requires
        n < radix(len),
    ensures
        be_value(be_bytes(n, len)) == n,
    decreases len,
{
    if len > 0 {
        let head = be_bytes(n / 256, (len - 1) as nat);
        lemma_be_round_trip(n / 256, (len - 1) as nat);
        assert(be_bytes(n, len).drop_last() =~= head);
    }
}

/// Reading the bytes of a signed number that fits gives the number back.
pub proof fn lemma_signed_round_trip(v: int, len: nat)
    requires
        -(radix(len) as int) <= 2 * v < radix(len),
    ensures
        signed_bytes(v, len).len() == len,
        signed_value(signed_bytes(v, len)) == v,
{
    lemma_be_bytes_len(to_unsigned(v, len), len);
    lemma_be_round_trip(to_unsigned(v, len), len);
}

/// The `len` low bytes of `n`, most significant first.
pub fn put_be(n: u64, len: usize) -> (out: Vec<u8>)
    ensures
        out@ == be_bytes(n as nat, len as nat),
    decreases len,
{
    if len == 0 {
        Vec::new()
    } else {
        let mut out = put_be(n / 256, len - 1);
        out.push((n % 256) as u8);
        out
    }
}

/// The big-endian number that the first `len` bytes of `raw` hold.
pub fn read_be(raw: &[u8], len: usize) -> (r: u64)
    requires
        len <= raw@.len(),
        len <= 8,
    ensures
        r == be_value(raw@.take(len as int)),
    decreases len,
{
    if len == 0 {
        0
    } else {
        let high = read_be(raw, len - 1);
        proof {
            assert(raw@.take(len as int).drop_last() =~= raw@.take(len - 1));
            lemma_be_value_bound(raw@.take(len - 1));
            lemma_radix_values();
            assert(radix((len - 1) as nat) <= radix(7));
        }
        high * 256 + raw[len - 1] as u64
    }
}

} // verus!
