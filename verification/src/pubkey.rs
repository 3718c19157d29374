//! Fixed-width binary account addresses, modelled as plain byte arrays, and
//! the little-endian byte helpers the rest of the crate builds on.

use vstd::prelude::*;

verus! {

/// A 32-byte account address. The all-zero address is reserved as the
/// "empty slot" sentinel of the weight table.
#[derive(Clone, Copy, Debug, PartialEq, Eq)]
pub struct Pubkey(pub [u8; 32]);

impl View for Pubkey {
    type V = Seq<u8>;

    open spec fn view(&self) -> Seq<u8> {
        self.0@
    }
}

impl Pubkey {
    /// Whether this is the all-zero sentinel address.
    pub open spec fn spec_is_zero(self) -> bool {
        forall|i: int| 0 <= i < 32 ==> self@[i] == 0
    }

    /// The all-zero sentinel address.
    pub fn zero() -> (r: Pubkey)
        ensures
            r.spec_is_zero(),
    {
        Pubkey([0u8; 32])
    }
}

/// Two addresses are the same value exactly when their byte views agree.
pub proof fn lemma_pubkey_eq_bytes(a: Pubkey, b: Pubkey)
    ensures
        (a == b) <==> (a@ == b@),
{
    broadcast use vstd::array::axiom_array_ext_equal;

    if a@ == b@ {
        assert(a.0 =~= b.0);
    }
}

/// Byte-wise address comparison.
pub fn pubkey_eq(a: &Pubkey, b: &Pubkey) -> (r: bool)
    ensures
        r == (*a == *b),
{
    proof {
        lemma_pubkey_eq_bytes(*a, *b);
    }
    let mut i: usize = 0;
    while i < 32
        invariant
            i <= 32,
            forall|j: int| 0 <= j < i ==> a@[j] == b@[j],
        decreases 32 - i,
    {
        if a.0[i] != b.0[i] {
            return false;
        }
        i += 1;
    }
    proof {
        assert(a@ =~= b@);
    }
    true
}

/// Whether `p` is the all-zero sentinel address.
pub fn pubkey_is_zero(p: &Pubkey) -> (r: bool)
    ensures
        r == p.spec_is_zero(),
{
    let mut i: usize = 0;
    while i < 32
        invariant
            i <= 32,
            forall|j: int| 0 <= j < i ==> p@[j] == 0,
        decreases 32 - i,
    {
        if p.0[i] != 0 {
            assert(p@[i as int] != 0);
            return false;
        }
        i += 1;
    }
    true
}

/// Copies an address into an owned byte buffer.
pub fn pubkey_to_vec(p: &Pubkey) -> (r: Vec<u8>)
    ensures
        r@ == p@,
{
    let mut r: Vec<u8> = Vec::new();
    let mut i: usize = 0;
    while i < 32
        invariant
            i <= 32,
            r@ == p@.take(i as int),
        decreases 32 - i,
    {
        proof {
            assert(p@.take(i + 1).drop_last() =~= p@.take(i as int));
            assert(p@.take(i + 1).last() == p@[i as int]);
        }
        r.push(p.0[i]);
        proof {
            assert(r@ =~= p@.take(i + 1));
        }
        i += 1;
    }
    proof {
        assert(p@.take(32) =~= p@);
    }
    r
}

/// The unsigned integer read little-endian from the first eight bytes of `s`.
pub open spec fn le_u64_of(s: Seq<u8>) -> u64
    recommends
        s.len() >= 8,
{
    (s[0] + s[1] * 0x100 + s[2] * 0x1_0000 + s[3] * 0x100_0000 + s[4] * 0x1_0000_0000
        + s[5] * 0x100_0000_0000 + s[6] * 0x1_0000_0000_0000 + s[7]
        * 0x100_0000_0000_0000) as u64
}

/// Reads the low eight bytes of an address as a little-endian integer.
pub fn low_u64(p: &Pubkey) -> (r: u64)
    ensures
        r == le_u64_of(p@),
{
    (p.0[0] as u64) + (p.0[1] as u64) * 0x100 + (p.0[2] as u64) * 0x1_0000 + (p.0[3] as u64)
        * 0x100_0000 + (p.0[4] as u64) * 0x1_0000_0000 + (p.0[5] as u64) * 0x100_0000_0000 + (
    p.0[6] as u64) * 0x1_0000_0000_0000 + (p.0[7] as u64) * 0x100_0000_0000_0000
}

/// The eight little-endian bytes of `x`, low byte first.
pub open spec fn u64_le_bytes(x: u64) -> Seq<u8> {
    seq![
        (x & 0xff) as u8,
        ((x >> 8) & 0xff) as u8,
        ((x >> 16) & 0xff) as u8,
        ((x >> 24) & 0xff) as u8,
        ((x >> 32) & 0xff) as u8,
        ((x >> 40) & 0xff) as u8,
        ((x >> 48) & 0xff) as u8,
        ((x >> 56) & 0xff) as u8,
    ]
}

/// Serialises `x` as eight little-endian bytes.
pub fn u64_to_le_vec(x: u64) -> (r: Vec<u8>)
    ensures
        r@ == u64_le_bytes(x),
{
    let mut r: Vec<u8> = Vec::new();
    r.push((x & 0xff) as u8);
    r.push(((x >> 8) & 0xff) as u8);
    r.push(((x >> 16) & 0xff) as u8);
    r.push(((x >> 24) & 0xff) as u8);
    r.push(((x >> 32) & 0xff) as u8);
    r.push(((x >> 40) & 0xff) as u8);
    r.push(((x >> 48) & 0xff) as u8);
    r.push(((x >> 56) & 0xff) as u8);
    proof {
        assert(r@ =~= u64_le_bytes(x));
    }
    r
}

} // verus!
