//! Bounded, content-addressed weight table.
//!
//! A fixed-capacity map from asset mint to weight, built collaboratively
//! during an epoch with find-or-insert updates, cross-checked through an
//! order-independent hash of its mint set, and frozen by a one-way finalize
//! step.

use vstd::prelude::*;

use crate::error::JitoTipRouterError;
use crate::pda::{pda_of, try_find_pda, views_of};
use crate::pubkey::{
    le_u64_of, low_u64, pubkey_eq, pubkey_is_zero, pubkey_to_vec, u64_le_bytes, u64_to_le_vec,
    Pubkey,
};

verus! {

/// Exact fixed-point weight value; opaque to the table, which only stores
/// and returns it.
pub type JitoNumber = u128;

/// One table slot: a slot is empty exactly when its mint is the all-zero
/// sentinel address.
#[derive(Clone, Copy, Debug, PartialEq, Eq)]
pub struct WeightEntry {
    pub mint: Pubkey,
    pub weight: JitoNumber,
}

impl WeightEntry {
    /// Whether this slot is unoccupied.
    pub open spec fn spec_is_empty(self) -> bool {
        self.mint.spec_is_zero()
    }

    /// Builds an occupied (or, for a zero mint, sentinel) entry.
    pub fn new(mint: Pubkey, weight: JitoNumber) -> (r: WeightEntry)
        ensures
            r == (WeightEntry { mint, weight }),
    {
        WeightEntry { mint, weight }
    }

    /// Whether this slot is unoccupied.
    pub fn is_empty(&self) -> (r: bool)
        ensures
            r == self.spec_is_empty(),
    {
        pubkey_is_zero(&self.mint)
    }
}

/// Number of occupied slots.
pub open spec fn spec_entry_count(entries: Seq<WeightEntry>) -> int
    decreases entries.len(),
{
    if entries.len() == 0 {
        0
    } else {
        spec_entry_count(entries.drop_last()) + if entries.last().spec_is_empty() {
            0int
        } else {
            1int
        }
    }
}

/// Index of the first entry whose mint equals `mint`, or `-1`.
pub open spec fn spec_find_mint_idx(entries: Seq<WeightEntry>, mint: Pubkey) -> int
    decreases entries.len(),
{
    if entries.len() == 0 {
        -1
    } else if entries[0].mint == mint {
        0
    } else {
        let r = spec_find_mint_idx(entries.drop_first(), mint);
        if r < 0 {
            -1
        } else {
            r + 1
        }
    }
}

/// Index of the first empty slot, or `-1`.
pub open spec fn spec_find_empty_idx(entries: Seq<WeightEntry>) -> int
    decreases entries.len(),
{
    if entries.len() == 0 {
        -1
    } else if entries[0].spec_is_empty() {
        0
    } else {
        let r = spec_find_empty_idx(entries.drop_first());
        if r < 0 {
            -1
        } else {
            r + 1
        }
    }
}

/// No two occupied slots share a mint.
pub open spec fn spec_entries_wf(entries: Seq<WeightEntry>) -> bool {
    forall|i: int, j: int|
        0 <= i < j < entries.len() && !entries[i].spec_is_empty()
            && !entries[j].spec_is_empty() ==> entries[i].mint != entries[j].mint
}

/// Exact outcome of `set_weight` on the entry sequence: overwrite the first
/// matching slot, else populate the first empty slot, else fail with the
/// capacity error.
pub open spec fn spec_set_weight_entries(
    entries: Seq<WeightEntry>,
    mint: Pubkey,
    weight: JitoNumber,
) -> (Seq<WeightEntry>, Result<(), JitoTipRouterError>) {
    let i = spec_find_mint_idx(entries, mint);
    if i >= 0 {
        (entries.update(i, WeightEntry { mint, weight }), Ok(()))
    } else {
        let j = spec_find_empty_idx(entries);
        if j >= 0 {
            (entries.update(j, WeightEntry { mint, weight }), Ok(()))
        } else {
            (entries, Err(JitoTipRouterError::TooManyMintsForTable))
        }
    }
}

/// `spec_find_mint_idx` returns exactly the first matching index.
pub proof fn lemma_find_mint_idx_spec(entries: Seq<WeightEntry>, mint: Pubkey)
    ensures
        ({
            let r = spec_find_mint_idx(entries, mint);
            &&& r >= 0 ==> 0 <= r < entries.len() && entries[r].mint == mint && (forall|j: int|
                0 <= j < r ==> entries[j].mint != mint)
            &&& r < 0 ==> r == -1 && (forall|j: int|
                0 <= j < entries.len() ==> entries[j].mint != mint)
        }),
    decreases entries.len(),
{
    if entries.len() > 0 && entries[0].mint != mint {
        lemma_find_mint_idx_spec(entries.drop_first(), mint);
        assert(forall|j: int|
            1 <= j < entries.len() ==> entries[j] == entries.drop_first()[j - 1]);
    }
}

/// `spec_find_empty_idx` returns exactly the first empty index.
pub proof fn lemma_find_empty_idx_spec(entries: Seq<WeightEntry>)
    ensures
        ({
            let r = spec_find_empty_idx(entries);
            &&& r >= 0 ==> 0 <= r < entries.len() && entries[r].spec_is_empty() && (forall|j: int|
                0 <= j < r ==> !entries[j].spec_is_empty())
            &&& r < 0 ==> r == -1 && (forall|j: int|
                0 <= j < entries.len() ==> !entries[j].spec_is_empty())
        }),
    decreases entries.len(),
{
    if entries.len() > 0 && !entries[0].spec_is_empty() {
        lemma_find_empty_idx_spec(entries.drop_first());
        assert(forall|j: int|
            1 <= j < entries.len() ==> entries[j] == entries.drop_first()[j - 1]);
    }
}

/// The occupied-slot count is between 0 and the number of slots.
pub proof fn lemma_entry_count_bounds(entries: Seq<WeightEntry>)
    ensures
        0 <= spec_entry_count(entries) <= entries.len(),
    decreases entries.len(),
{
    if entries.len() > 0 {
        lemma_entry_count_bounds(entries.drop_last());
    }
}

/// How replacing one slot moves the occupied-slot count.
pub proof fn lemma_entry_count_update(entries: Seq<WeightEntry>, i: int, e: WeightEntry)
    requires
        0 <= i < entries.len(),
    ensures
        spec_entry_count(entries.update(i, e)) == spec_entry_count(entries) - (
        if entries[i].spec_is_empty() {
            0int
        } else {
            1int
        }) + (if e.spec_is_empty() {
            0int
        } else {
            1int
        }),
    decreases entries.len(),
{
    let up = entries.update(i, e);
    if i == entries.len() - 1 {
        assert(up.drop_last() =~= entries.drop_last());
    } else {
        assert(up.drop_last() =~= entries.drop_last().update(i, e));
        assert(up.last() == entries.last());
        lemma_entry_count_update(entries.drop_last(), i, e);
    }
}

/// A table with as many occupied slots as slots has no empty slot.
pub proof fn lemma_full_table_has_no_empty_slot(entries: Seq<WeightEntry>)
    requires
        spec_entry_count(entries) == entries.len(),
    ensures
        forall|i: int| 0 <= i < entries.len() ==> !(#[trigger] entries[i]).spec_is_empty(),
    decreases entries.len(),
{
    if entries.len() > 0 {
        lemma_entry_count_bounds(entries.drop_last());
        lemma_full_table_has_no_empty_slot(entries.drop_last());
        assert(forall|i: int|
            0 <= i < entries.len() - 1 ==> entries[i] == entries.drop_last()[i]);
    }
}

/// Find-or-insert keeps occupied mints pairwise distinct.
pub proof fn lemma_set_weight_preserves_wf(
    entries: Seq<WeightEntry>,
    mint: Pubkey,
    weight: JitoNumber,
)
    requires
        spec_entries_wf(entries),
    ensures
        spec_entries_wf(spec_set_weight_entries(entries, mint, weight).0),
{
    lemma_find_mint_idx_spec(entries, mint);
    lemma_find_empty_idx_spec(entries);
    let i = spec_find_mint_idx(entries, mint);
    let j = spec_find_empty_idx(entries);
    if i >= 0 {
        let up = entries.update(i, WeightEntry { mint, weight });
        assert forall|a: int, b: int|
            0 <= a < b < up.len() && !up[a].spec_is_empty() && !up[b].spec_is_empty() implies up[a].mint
            != up[b].mint by {
            if a != i && b != i {
                assert(up[a] == entries[a] && up[b] == entries[b]);
            }
        }
    } else if j >= 0 {
        let up = entries.update(j, WeightEntry { mint, weight });
        assert forall|a: int, b: int|
            0 <= a < b < up.len() && !up[a].spec_is_empty() && !up[b].spec_is_empty() implies up[a].mint
            != up[b].mint by {
            if a != j && b != j {
                assert(up[a] == entries[a] && up[b] == entries[b]);
            }
        }
    }
}

/// The mints of the occupied slots, in table order.
pub open spec fn spec_mints(entries: Seq<WeightEntry>) -> Seq<Pubkey>
    decreases entries.len(),
{
    if entries.len() == 0 {
        Seq::empty()
    } else if entries.last().spec_is_empty() {
        spec_mints(entries.drop_last())
    } else {
        spec_mints(entries.drop_last()).push(entries.last().mint)
    }
}

/// There are as many listed mints as occupied slots.
pub proof fn lemma_mints_len(entries: Seq<WeightEntry>)
    ensures
        spec_mints(entries).len() == spec_entry_count(entries),
    decreases entries.len(),
{
    if entries.len() > 0 {
        lemma_mints_len(entries.drop_last());
    }
}

/// Order-independent fingerprint of a mint list: the XOR of the low eight
/// little-endian bytes of every mint.
pub open spec fn spec_mint_hash(mints: Seq<Pubkey>) -> u64
    decreases mints.len(),
{
    if mints.len() == 0 {
        0u64
    } else {
        spec_mint_hash(mints.drop_last()) ^ le_u64_of(mints.last()@)
    }
}

/// Removing one mint removes exactly its contribution to the hash.
pub proof fn lemma_mint_hash_remove(mints: Seq<Pubkey>, i: int)
    requires
        0 <= i < mints.len(),
    ensures
        spec_mint_hash(mints) == spec_mint_hash(mints.remove(i)) ^ le_u64_of(mints[i]@),
    decreases mints.len(),
{
    if i == mints.len() - 1 {
        assert(mints.remove(i) =~= mints.drop_last());
    } else {
        assert(mints.remove(i).drop_last() =~= mints.drop_last().remove(i));
        assert(mints.remove(i).last() == mints.last());
        lemma_mint_hash_remove(mints.drop_last(), i);
        let a = spec_mint_hash(mints.drop_last().remove(i));
        let x = le_u64_of(mints[i]@);
        let y = le_u64_of(mints.last()@);
        assert((a ^ x) ^ y == (a ^ y) ^ x) by (bit_vector);
    }
}

/// Hash order-invariance: two mint lists with the same multiset of mints
/// have the same fingerprint, so the hash does not depend on the order in
/// which the mints were inserted.
pub proof fn lemma_mint_hash_permutation(m1: Seq<Pubkey>, m2: Seq<Pubkey>)
    requires
        m1.to_multiset() == m2.to_multiset(),
    ensures
        spec_mint_hash(m1) == spec_mint_hash(m2),
    decreases m1.len(),
{
    broadcast use vstd::seq_lib::group_to_multiset_ensures;

    if m1.len() > 0 {
        let a = m1.last();
        assert(m1.contains(a));
        assert(m2.to_multiset().count(a) > 0);
        assert(m2.contains(a));
        let i = choose|i: int| 0 <= i < m2.len() && m2[i] == a;
        lemma_mint_hash_remove(m2, i);
        lemma_mint_hash_remove(m1, m1.len() - 1);
        assert(m1.remove(m1.len() - 1) =~= m1.drop_last());
        assert(m1.drop_last().to_multiset() == m2.remove(i).to_multiset());
        lemma_mint_hash_permutation(m1.drop_last(), m2.remove(i));
    } else {
        assert(m1.to_multiset().len() == 0);
        assert(m2.len() == m2.to_multiset().len());
    }
}

/// The seed tag under which weight tables are addressed: the bytes of
/// `"WEIGHT_TABLE"`.
pub open spec fn spec_seed_tag() -> Seq<u8> {
    seq![87u8, 69u8, 73u8, 71u8, 72u8, 84u8, 95u8, 84u8, 65u8, 66u8, 76u8, 69u8]
}

/// The full seed list addressing the table of `(ncn, ncn_epoch)`.
pub open spec fn spec_weight_table_seeds(ncn: Pubkey, ncn_epoch: u64) -> Seq<Seq<u8>> {
    seq![spec_seed_tag(), ncn@, u64_le_bytes(ncn_epoch)]
}

/// The collaborative weight table for one collective and epoch.
#[derive(Debug, PartialEq, Eq)]
pub struct WeightTable {
    /// The collective this table belongs to.
    pub ncn: Pubkey,
    /// The epoch for which the weights are valid.
    pub ncn_epoch: u64,
    /// Slot at which the table was created.
    pub slot_created: u64,
    /// Slot at which the table was finalized, or `NOT_FINALIZED`.
    pub slot_finalized: u64,
    /// Bump seed of the table's derived address.
    pub bump: u8,
    /// The fixed-capacity slot array; always `MAX_TABLE_ENTRIES` long.
    pub table: Vec<WeightEntry>,
}

impl WeightTable {
    /// Capacity of the table.
    pub const MAX_TABLE_ENTRIES: usize = 32;

    /// Sentinel finalize slot: the maximum representable value, so that "not
    /// finalized" sorts after every real slot.
    pub const NOT_FINALIZED: u64 = u64::MAX;

    /// Structural invariant: full capacity is allocated and occupied mints
    /// are pairwise distinct.
    pub open spec fn wf(self) -> bool {
        &&& self.table@.len() == 32
        &&& spec_entries_wf(self.table@)
    }

    /// Whether the table has been frozen.
    pub open spec fn spec_finalized(self) -> bool {
        self.slot_finalized != u64::MAX
    }

    /// An empty table for `(ncn, ncn_epoch)`, not yet finalized.
    pub fn new(ncn: Pubkey, ncn_epoch: u64, slot_created: u64, bump: u8) -> (r: WeightTable)
        ensures
            r.ncn == ncn,
            r.ncn_epoch == ncn_epoch,
            r.slot_created == slot_created,
            r.slot_finalized == u64::MAX,
            r.bump == bump,
            !r.spec_finalized(),
            r.wf(),
            r.table@.len() == 32,
            forall|i: int| 0 <= i < 32 ==> (#[trigger] r.table@[i]).spec_is_empty(),
            forall|i: int| 0 <= i < 32 ==> (#[trigger] r.table@[i]).weight == 0,
            spec_entry_count(r.table@) == 0,
    {
        let mut table: Vec<WeightEntry> = Vec::new();
        let empty = WeightEntry { mint: Pubkey::zero(), weight: 0 };
        let mut i: usize = 0;
        while i < 32
            invariant
                i <= 32,
                table@.len() == i,
                forall|j: int| 0 <= j < i ==> table@[j] == empty,
                empty.spec_is_empty(),
                spec_entry_count(table@) == 0,
            decreases 32 - i,
        {
            let ghost old_table = table@;
            table.push(empty);
            proof {
                assert(table@.drop_last() =~= old_table);
            }
            i += 1;
        }
        WeightTable { ncn, ncn_epoch, slot_created, slot_finalized: u64::MAX, bump, table }
    }

    /// First index holding `mint`, scanning from the front.
    fn find_mint_index(entries: &Vec<WeightEntry>, mint: &Pubkey) -> (r: Option<usize>)
        ensures
            ({
                let s = spec_find_mint_idx(entries@, *mint);
                match r {
                    Some(i) => i == s && i < entries@.len() && entries@[i as int].mint == *mint,
                    None => s == -1,
                }
            }),
    {
        proof {
            lemma_find_mint_idx_spec(entries@, *mint);
        }
        let mut i: usize = 0;
        while i < entries.len()
            invariant
                i <= entries@.len(),
                forall|j: int| 0 <= j < i ==> entries@[j].mint != *mint,
            decreases entries@.len() - i,
        {
            if pubkey_eq(&entries[i].mint, mint) {
                proof {
                    lemma_find_mint_idx_spec(entries@, *mint);
                }
                return Some(i);
            }
            i += 1;
        }
        None
    }

    /// First empty index, scanning from the front.
    fn find_empty_index(entries: &Vec<WeightEntry>) -> (r: Option<usize>)
        ensures
            ({
                let s = spec_find_empty_idx(entries@);
                match r {
                    Some(i) => i == s && i < entries@.len() && entries@[i as int].spec_is_empty(),
                    None => s == -1,
                }
            }),
    {
        proof {
            lemma_find_empty_idx_spec(entries@);
        }
        let mut i: usize = 0;
        while i < entries.len()
            invariant
                i <= entries@.len(),
                forall|j: int| 0 <= j < i ==> !entries@[j].spec_is_empty(),
            decreases entries@.len() - i,
        {
            if entries[i].is_empty() {
                proof {
                    lemma_find_empty_idx_spec(entries@);
                }
                return Some(i);
            }
            i += 1;
        }
        None
    }

    /// Number of occupied slots.
    pub fn entry_count(&self) -> (r: usize)
        ensures
            r == spec_entry_count(self.table@),
    {
        proof {
            lemma_entry_count_bounds(self.table@);
        }
        let mut count: usize = 0;
        let mut i: usize = 0;
        while i < self.table.len()
            invariant
                i <= self.table@.len(),
                count == spec_entry_count(self.table@.take(i as int)),
                count <= i,
            decreases self.table@.len() - i,
        {
            proof {
                assert(self.table@.take(i + 1).drop_last() =~= self.table@.take(i as int));
                assert(self.table@.take(i + 1).last() == self.table@[i as int]);
            }
            if !self.table[i].is_empty() {
                count += 1;
            }
            i += 1;
        }
        proof {
            assert(self.table@.take(self.table@.len() as int) =~= self.table@);
        }
        count
    }

    /// The weight stored for `mint`, if any slot holds that mint.
    pub fn find_weight(&self, mint: &Pubkey) -> (r: Option<JitoNumber>)
        ensures
            ({
                let s = spec_find_mint_idx(self.table@, *mint);
                match r {
                    Some(w) => s >= 0 && w == self.table@[s].weight,
                    None => s == -1,
                }
            }),
    {
        match Self::find_mint_index(&self.table, mint) {
            Some(i) => Some(self.table[i].weight),
            None => None,
        }
    }

    /// Find-or-insert during the build phase: overwrites the weight of the
    /// slot already holding `mint`, else fills the first empty slot, and
    /// fails with the capacity error when neither exists. Never touches any
    /// other slot and never reorders the table. The all-zero mint matches
    /// the first empty slot and only updates its weight, so the slot stays
    /// empty.
    pub fn set_weight(&mut self, mint: &Pubkey, weight: JitoNumber) -> (r: Result<
        (),
        JitoTipRouterError,
    >)
        requires
            !old(self).spec_finalized(),
        ensures
            ({
                let (es, res) = spec_set_weight_entries(old(self).table@, *mint, weight);
                final(self).table@ == es && r == res
            }),
            final(self).ncn == old(self).ncn,
            final(self).ncn_epoch == old(self).ncn_epoch,
            final(self).slot_created == old(self).slot_created,
            final(self).slot_finalized == old(self).slot_finalized,
            final(self).bump == old(self).bump,
            old(self).wf() ==> final(self).wf(),
            r is Ok <==> spec_find_mint_idx(old(self).table@, *mint) >= 0 || spec_find_empty_idx(
                old(self).table@,
            ) >= 0,
    {
        proof {
            if old(self).wf() {
                lemma_set_weight_preserves_wf(old(self).table@, *mint, weight);
            }
        }
        if let Some(i) = Self::find_mint_index(&self.table, mint) {
            self.table.set(i, WeightEntry { mint: *mint, weight });
            return Ok(());
        }
        if let Some(j) = Self::find_empty_index(&self.table) {
            self.table.set(j, WeightEntry { mint: *mint, weight });
            return Ok(());
        }
        Err(JitoTipRouterError::TooManyMintsForTable)
    }

    /// The seed buffers addressing the table of `(ncn, ncn_epoch)`.
    pub fn seeds(ncn: &Pubkey, ncn_epoch: u64) -> (r: Vec<Vec<u8>>)
        ensures
            r@.len() == 3,
            r@[0]@ == spec_seed_tag(),
            r@[1]@ == ncn@,
            r@[2]@ == u64_le_bytes(ncn_epoch),
    {
        let mut tag: Vec<u8> = Vec::new();
        tag.push(87);
        tag.push(69);
        tag.push(73);
        tag.push(71);
        tag.push(72);
        tag.push(84);
        tag.push(95);
        tag.push(84);
        tag.push(65);
        tag.push(66);
        tag.push(76);
        tag.push(69);
        proof {
            assert(tag@ =~= spec_seed_tag());
        }
        let mut r: Vec<Vec<u8>> = Vec::new();
        r.push(tag);
        r.push(pubkey_to_vec(ncn));
        r.push(u64_to_le_vec(ncn_epoch));
        r
    }

    /// The derived address, bump and seeds of the table of `(ncn,
    /// ncn_epoch)` under `program_id`, or `None` in the statistically
    /// improbable event that no bump seed yields a valid address.
    pub fn find_program_address(program_id: &Pubkey, ncn: &Pubkey, ncn_epoch: u64) -> (r: Option<
        (Pubkey, u8, Vec<Vec<u8>>),
    >)
        ensures
            ({
                let d = pda_of(spec_weight_table_seeds(*ncn, ncn_epoch), program_id@);
                match r {
                    Some(t) => d == Some((t.0@, t.1)) && t.2@.len() == 3 && t.2@[0]@
                        == spec_seed_tag() && t.2@[1]@ == ncn@ && t.2@[2]@ == u64_le_bytes(
                        ncn_epoch,
                    ),
                    None => d is None,
                }
            }),
    {
        let seeds = Self::seeds(ncn, ncn_epoch);
        proof {
            assert(views_of(seeds@) =~~= spec_weight_table_seeds(*ncn, ncn_epoch));
        }
        match try_find_pda(&seeds, program_id) {
            Some((pda, bump)) => Some((pda, bump, seeds)),
            None => None,
        }
    }

    /// The mints of the occupied slots, in table order.
    pub fn get_mints(&self) -> (r: Vec<Pubkey>)
        ensures
            r@ == spec_mints(self.table@),
            r@.len() == spec_entry_count(self.table@),
    {
        proof {
            lemma_mints_len(self.table@);
        }
        let mut out: Vec<Pubkey> = Vec::new();
        let mut i: usize = 0;
        while i < self.table.len()
            invariant
                i <= self.table@.len(),
                out@ == spec_mints(self.table@.take(i as int)),
            decreases self.table@.len() - i,
        {
            proof {
                assert(self.table@.take(i + 1).drop_last() =~= self.table@.take(i as int));
                assert(self.table@.take(i + 1).last() == self.table@[i as int]);
            }
            if !self.table[i].is_empty() {
                out.push(self.table[i].mint);
            }
            i += 1;
        }
        proof {
            assert(self.table@.take(self.table@.len() as int) =~= self.table@);
        }
        out
    }

    /// Order-independent fingerprint of a mint list: the low eight bytes of
    /// every mint, XOR-folded. XOR is commutative, so any insertion order of
    /// the same mints produces the same hash.
    pub fn get_mint_hash(mints: Vec<Pubkey>) -> (r: u64)
        ensures
            r == spec_mint_hash(mints@),
    {
        let mut hash: u64 = 0;
        let mut i: usize = 0;
        while i < mints.len()
            invariant
                i <= mints@.len(),
                hash == spec_mint_hash(mints@.take(i as int)),
            decreases mints@.len() - i,
        {
            proof {
                assert(mints@.take(i + 1).drop_last() =~= mints@.take(i as int));
                assert(mints@.take(i + 1).last() == mints@[i as int]);
            }
            hash = hash ^ low_u64(&mints[i]);
            i += 1;
        }
        proof {
            assert(mints@.take(mints@.len() as int) =~= mints@);
        }
        hash
    }

    /// Cross-validation: succeeds exactly when the claimed count equals the
    /// occupied-slot count and the claimed hash equals the fingerprint of
    /// the live mints; each disagreement is reported by its own error.
    pub fn check_mints_okay(&self, mint_hash: u64, mint_count: u8) -> (r: Result<
        (),
        JitoTipRouterError,
    >)
        requires
            self.wf(),
        ensures
            r is Ok <==> mint_count == spec_entry_count(self.table@) && mint_hash
                == spec_mint_hash(spec_mints(self.table@)),
            r == Err::<(), JitoTipRouterError>(JitoTipRouterError::WeightMintsDoNotMatchLength)
                <==> mint_count != spec_entry_count(self.table@),
            r == Err::<(), JitoTipRouterError>(JitoTipRouterError::WeightMintsDoNotMatchMintHash)
                <==> mint_count == spec_entry_count(self.table@) && mint_hash != spec_mint_hash(
                spec_mints(self.table@),
            ),
    {
        proof {
            lemma_entry_count_bounds(self.table@);
        }
        let count = self.entry_count();
        if mint_count != (count as u8) {
            return Err(JitoTipRouterError::WeightMintsDoNotMatchLength);
        }
        let table_mint_hash = Self::get_mint_hash(self.get_mints());
        if mint_hash != table_mint_hash {
            return Err(JitoTipRouterError::WeightMintsDoNotMatchMintHash);
        }
        Ok(())
    }

    /// The collective this table belongs to.
    pub fn ncn(&self) -> (r: Pubkey)
        ensures
            r == self.ncn,
    {
        self.ncn
    }

    /// The epoch for which the weights are valid.
    pub fn ncn_epoch(&self) -> (r: u64)
        ensures
            r == self.ncn_epoch,
    {
        self.ncn_epoch
    }

    /// Slot at which the table was created.
    pub fn slot_created(&self) -> (r: u64)
        ensures
            r == self.slot_created,
    {
        self.slot_created
    }

    /// Slot at which the table was finalized, or `NOT_FINALIZED`.
    pub fn slot_finalized(&self) -> (r: u64)
        ensures
            r == self.slot_finalized,
    {
        self.slot_finalized
    }

    /// Whether the table has been frozen.
    pub fn finalized(&self) -> (r: bool)
        ensures
            r == self.spec_finalized(),
    {
        self.slot_finalized != Self::NOT_FINALIZED
    }

    /// One-way freeze: records the finalizing slot the first time, and never
    /// changes the recorded slot again.
    pub fn finalize(&mut self, current_slot: u64)
        ensures
            old(self).spec_finalized() ==> *final(self) == *old(self),
            !old(self).spec_finalized() ==> final(self).slot_finalized == current_slot,
            final(self).ncn == old(self).ncn,
            final(self).ncn_epoch == old(self).ncn_epoch,
            final(self).slot_created == old(self).slot_created,
            final(self).bump == old(self).bump,
            final(self).table == old(self).table,
            !old(self).spec_finalized() && current_slot != u64::MAX
                ==> final(self).spec_finalized(),
    {
        if self.slot_finalized == Self::NOT_FINALIZED {
            self.slot_finalized = current_slot;
        }
    }
}

/// Weight idempotence: setting the same mint twice leaves exactly one slot
/// holding that mint, with the second weight, and the occupied-slot count
/// does not grow on the overwrite.
pub proof fn lemma_weight_idempotence(
    entries: Seq<WeightEntry>,
    mint: Pubkey,
    w1: JitoNumber,
    w2: JitoNumber,
)
    requires
        spec_entries_wf(entries),
        !mint.spec_is_zero(),
        spec_set_weight_entries(entries, mint, w1).1 is Ok,
    ensures
        ({
            let e1 = spec_set_weight_entries(entries, mint, w1).0;
            let (e2, r2) = spec_set_weight_entries(e1, mint, w2);
            &&& r2 is Ok
            &&& spec_entry_count(e2) == spec_entry_count(e1)
            &&& exists|k: int|
                0 <= k < e2.len() && (#[trigger] e2[k]).mint == mint && e2[k].weight == w2 && (
                forall|j: int| 0 <= j < e2.len() && j != k ==> (#[trigger] e2[j]).mint != mint)
        }),
{
    lemma_find_mint_idx_spec(entries, mint);
    lemma_find_empty_idx_spec(entries);
    let i = spec_find_mint_idx(entries, mint);
    let j = spec_find_empty_idx(entries);
    let k = if i >= 0 {
        i
    } else {
        j
    };
    let written = WeightEntry { mint, weight: w1 };
    let e1 = spec_set_weight_entries(entries, mint, w1).0;
    assert(e1 == entries.update(k, written));
    lemma_set_weight_preserves_wf(entries, mint, w1);
    lemma_find_mint_idx_spec(e1, mint);
    let i2 = spec_find_mint_idx(e1, mint);
    assert(e1[k].mint == mint);
    assert(forall|l: int| 0 <= l < k ==> (#[trigger] e1[l]) == entries[l]);
    assert(i2 == k);
    let e2 = spec_set_weight_entries(e1, mint, w2).0;
    assert(e2 == e1.update(k, WeightEntry { mint, weight: w2 }));
    lemma_entry_count_update(e1, k, WeightEntry { mint, weight: w2 });
    assert forall|l: int| 0 <= l < e2.len() && l != k implies (#[trigger] e2[l]).mint != mint by {
        assert(e2[l] == e1[l]);
        if e1[l].mint == mint {
            assert(!e1[l].spec_is_empty());
            assert(!e1[k].spec_is_empty());
            if l < k {
                assert(e1[l].mint != e1[k].mint);
            } else {
                assert(e1[k].mint != e1[l].mint);
            }
        }
    }
    assert(0 <= k < e2.len() && e2[k].mint == mint && e2[k].weight == w2);
}

/// Capacity: once every slot is occupied, setting a mint that is not in the
/// table fails with the capacity error, while re-setting a mint already in
/// the table still succeeds.
pub proof fn lemma_capacity(entries: Seq<WeightEntry>, mint: Pubkey, weight: JitoNumber)
    requires
        spec_entry_count(entries) == entries.len(),
    ensures
        spec_find_mint_idx(entries, mint) < 0 ==> spec_set_weight_entries(entries, mint, weight).1
            == Err::<(), JitoTipRouterError>(JitoTipRouterError::TooManyMintsForTable),
        spec_find_mint_idx(entries, mint) >= 0 ==> spec_set_weight_entries(
            entries,
            mint,
            weight,
        ).1 is Ok,
{
    lemma_full_table_has_no_empty_slot(entries);
    lemma_find_empty_idx_spec(entries);
}

} // verus!
