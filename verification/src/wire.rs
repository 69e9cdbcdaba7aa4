//! Numbers on the wire: big-endian, of two or four bytes.
use vstd::prelude::*;

verus! {

pub open spec fn be16(n: nat) -> Seq<u8> {
    seq![(n / 256 % 256) as u8, (n % 256) as u8]
}

pub open spec fn be32(n: nat) -> Seq<u8> {
    seq![
        (n / 16_777_216 % 256) as u8,
        (n / 65_536 % 256) as u8,
        (n / 256 % 256) as u8,
        (n % 256) as u8,
    ]
}

pub open spec fn from_be16(b: Seq<u8>) -> nat {
    (b[0] as nat) * 256 + b[1] as nat
}

pub open spec fn from_be32(b: Seq<u8>) -> nat {
    (b[0] as nat) * 16_777_216 + (b[1] as nat) * 65_536 + (b[2] as nat) * 256 + b[3] as nat
}

/// What is written is read back.
pub proof fn be16_round_trip(n: nat)
    requires
        n < 65_536,
    ensures
        from_be16(be16(n)) == n,
{
}

pub proof fn be32_round_trip(n: nat)
    requires
        n < 4_294_967_296,
    ensures
        from_be32(be32(n)) == n,
{
}

/// What is read is what was written.
pub proof fn be32_is_unique(b: Seq<u8>)
    requires
        b.len() == 4,
    ensures
        from_be32(b) < 4_294_967_296,
        be32(from_be32(b)) == b,
{
    let (w, x, y, z) = (b[0], b[1], b[2], b[3]);
    assert({
        let n = w * 16_777_216 + x * 65_536 + y * 256 + z;
        n < 4_294_967_296 && n / 16_777_216 % 256 == w && n / 65_536 % 256 == x && n / 256 % 256
            == y && n % 256 == z
    }) by (bit_vector);
    assert(be32(from_be32(b)) =~= b);
}

pub proof fn be16_is_unique(b: Seq<u8>)
    requires
        b.len() == 2,
    ensures
        from_be16(b) < 65_536,
        be16(from_be16(b)) == b,
{
    assert(be16(from_be16(b)) =~= b);
}

pub fn push_be16(out: &mut Vec<u8>, n: u16)
    ensures
        final(out)@ == old(out)@ + be16(n as nat),
{
    let ghost before = out@;
    out.push((n / 256) as u8);
    out.push((n % 256) as u8);
    assert(out@ =~= before + be16(n as nat));
}

pub fn push_be32(out: &mut Vec<u8>, n: u32)
    ensures
        final(out)@ == old(out)@ + be32(n as nat),
{
    let ghost before = out@;
    out.push((n / 16_777_216) as u8);
    out.push((n / 65_536 % 256) as u8);
    out.push((n / 256 % 256) as u8);
    out.push((n % 256) as u8);
    assert(out@ =~= before + be32(n as nat));
}

pub fn read_be16(bytes: &[u8], at: usize) -> (n: u16)
    requires
        at + 2 <= bytes@.len(),
    ensures
        n == from_be16(bytes@.subrange(at as int, at + 2)),
{
    bytes[at] as u16 * 256 + bytes[at + 1] as u16
}

pub fn read_be32(bytes: &[u8], at: usize) -> (n: u32)
    requires
        at + 4 <= bytes@.len(),
    ensures
        n == from_be32(bytes@.subrange(at as int, at + 4)),
{
    bytes[at] as u32 * 16_777_216 + bytes[at + 1] as u32 * 65_536 + bytes[at + 2] as u32 * 256
        + bytes[at + 3] as u32
}

/// The part of a byte string from `start` to `end`.
pub fn slice(bytes: &[u8], start: usize, end: usize) -> (r: &[u8])
    requires
        start <= end <= bytes@.len(),
    ensures
        r@ == bytes@.subrange(start as int, end as int),
{
    &bytes[start..end]
}

/// Whether the bytes begin with `prefix`.
pub open spec fn starts_with(bytes: Seq<u8>, prefix: Seq<u8>) -> bool {
    bytes.len() >= prefix.len() && bytes.take(prefix.len() as int) == prefix
}

pub fn has_prefix(bytes: &[u8], prefix: &[u8]) -> (r: bool)
    ensures
        r == starts_with(bytes@, prefix@),
{
    if bytes.len() < prefix.len() {
        return false;
    }
    let mut i: usize = 0;
    while i < prefix.len()
        invariant
            i <= prefix@.len() <= bytes@.len(),
            forall|k: int| 0 <= k < i ==> bytes@[k] == prefix@[k],
        decreases prefix@.len() - i,
    {
        if bytes[i] != prefix[i] {
            assert(bytes@.take(prefix@.len() as int)[i as int] != prefix@[i as int]);
            return false;
        }
        i += 1;
    }
    assert(bytes@.take(prefix@.len() as int) =~= prefix@);
    true
}

} // verus!
