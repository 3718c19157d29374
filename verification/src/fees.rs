//! Dual-slot, epoch-activated fee schedule.
//!
//! The store keeps exactly two fee slots. An administrator update never
//! touches the slot that readers of the current epoch select: it writes the
//! other slot and dates it for the next epoch, so every reader of a given
//! epoch computes the same answer no matter how it interleaves with updates.

use vstd::prelude::*;

use crate::error::JitoTipRouterError;
use crate::pubkey::Pubkey;
use crate::MAX_FEE_BPS;

verus! {

/// One fee record: a payout wallet, three basis-point shares and the epoch
/// at which the record becomes authoritative.
#[derive(Clone, Copy, Debug, PartialEq, Eq)]
pub struct Fee {
    pub wallet: Pubkey,
    pub dao_share_bps: u64,
    pub ncn_share_bps: u64,
    pub block_engine_fee_bps: u64,
    pub activation_epoch: u64,
}

impl Fee {
    /// Builds a record that activates at `epoch`.
    pub fn new(
        wallet: Pubkey,
        dao_share_bps: u64,
        ncn_share_bps: u64,
        block_engine_fee_bps: u64,
        epoch: u64,
    ) -> (r: Fee)
        ensures
            r == (Fee {
                wallet,
                dao_share_bps,
                ncn_share_bps,
                block_engine_fee_bps,
                activation_epoch: epoch,
            }),
    {
        Fee { wallet, dao_share_bps, ncn_share_bps, block_engine_fee_bps, activation_epoch: epoch }
    }
}

/// The two-slot fee store. Fee updates land in whichever slot near-term
/// readers do not need, dated for the next epoch.
#[derive(Clone, Copy, Debug, PartialEq, Eq)]
pub struct Fees {
    pub fee_1: Fee,
    pub fee_2: Fee,
}

impl Fees {
    /// The record a reader at `current_epoch` must use: if one slot is not
    /// yet active the other wins; if both are active the more recently
    /// activated wins, with ties resolved to the first slot.
    pub open spec fn spec_current_fee(self, current_epoch: u64) -> Fee {
        if self.fee_1.activation_epoch > current_epoch {
            self.fee_2
        } else if self.fee_2.activation_epoch > current_epoch {
            self.fee_1
        } else if self.fee_1.activation_epoch >= self.fee_2.activation_epoch {
            self.fee_1
        } else {
            self.fee_2
        }
    }

    /// Which slot an update at the given epoch may overwrite: a slot already
    /// dated for the next epoch is reused, otherwise the staler slot loses.
    pub open spec fn spec_updatable_is_first(self, next_epoch: u64) -> bool {
        if self.fee_1.activation_epoch == next_epoch {
            true
        } else if self.fee_2.activation_epoch == next_epoch {
            false
        } else {
            self.fee_1.activation_epoch <= self.fee_2.activation_epoch
        }
    }

    /// The store with one slot replaced.
    pub open spec fn spec_with_slot(self, first: bool, f: Fee) -> Fees {
        if first {
            Fees { fee_1: f, fee_2: self.fee_2 }
        } else {
            Fees { fee_1: self.fee_1, fee_2: f }
        }
    }

    /// Exact outcome of `set_new_fees`: the resulting store and result.
    ///
    /// Fields are validated and committed one at a time into the updatable
    /// slot, so a rejected field leaves the fields before it already written
    /// over the copied baseline, under the baseline's activation epoch.
    pub open spec fn spec_set_new_fees(
        self,
        new_dao_fee_bps: Option<u64>,
        new_ncn_fee_bps: Option<u64>,
        new_block_engine_fee_bps: Option<u64>,
        new_wallet: Option<Pubkey>,
        current_epoch: u64,
    ) -> (Fees, Result<(), JitoTipRouterError>) {
        if current_epoch == u64::MAX {
            (self, Err(JitoTipRouterError::ArithmeticOverflow))
        } else {
            let first = self.spec_updatable_is_first((current_epoch + 1) as u64);
            let base = self.spec_current_fee(current_epoch);
            if new_dao_fee_bps is Some && new_dao_fee_bps->0 > MAX_FEE_BPS {
                (self.spec_with_slot(first, base), Err(JitoTipRouterError::FeeCapExceeded))
            } else {
                let f1 = if new_dao_fee_bps is Some {
                    Fee { dao_share_bps: new_dao_fee_bps->0, ..base }
                } else {
                    base
                };
                if new_ncn_fee_bps is Some && new_ncn_fee_bps->0 > MAX_FEE_BPS {
                    (self.spec_with_slot(first, f1), Err(JitoTipRouterError::FeeCapExceeded))
                } else {
                    let f2 = if new_ncn_fee_bps is Some {
                        Fee { ncn_share_bps: new_ncn_fee_bps->0, ..f1 }
                    } else {
                        f1
                    };
                    if new_block_engine_fee_bps is Some && new_block_engine_fee_bps->0
                        > MAX_FEE_BPS {
                        (self.spec_with_slot(first, f2), Err(JitoTipRouterError::FeeCapExceeded))
                    } else {
                        let f3 = if new_block_engine_fee_bps is Some {
                            Fee { block_engine_fee_bps: new_block_engine_fee_bps->0, ..f2 }
                        } else {
                            f2
                        };
                        let f4 = if new_wallet is Some {
                            Fee { wallet: new_wallet->0, ..f3 }
                        } else {
                            f3
                        };
                        let f5 = Fee { activation_epoch: (current_epoch + 1) as u64, ..f4 };
                        (self.spec_with_slot(first, f5), Ok(()))
                    }
                }
            }
        }
    }

    /// Derived rate: `share * 10000 / (10000 - block_engine)`, the share
    /// renormalized against the budget left after the block-engine share,
    /// with every checked-arithmetic failure surfaced as an overflow error.
    pub open spec fn spec_renormalized_fee(share_bps: u64, block_engine_fee_bps: u64) -> Result<
        u64,
        JitoTipRouterError,
    > {
        if block_engine_fee_bps > MAX_FEE_BPS {
            Err(JitoTipRouterError::ArithmeticOverflow)
        } else if share_bps * MAX_FEE_BPS > u64::MAX {
            Err(JitoTipRouterError::ArithmeticOverflow)
        } else if block_engine_fee_bps == MAX_FEE_BPS {
            Err(JitoTipRouterError::ArithmeticOverflow)
        } else {
            Ok((share_bps * MAX_FEE_BPS / (MAX_FEE_BPS - block_engine_fee_bps)) as u64)
        }
    }

    /// A store whose slots are plausible at epoch `e`: neither slot is dated
    /// beyond the next epoch, and slots sharing an activation epoch hold the
    /// same record and are already active. Creation establishes this and
    /// every successful update preserves it.
    pub open spec fn wf_at(self, e: u64) -> bool {
        &&& self.fee_1.activation_epoch <= e + 1
        &&& self.fee_2.activation_epoch <= e + 1
        &&& (self.fee_1.activation_epoch == self.fee_2.activation_epoch ==> self.fee_1
            == self.fee_2 && self.fee_1.activation_epoch <= e)
    }

    /// Seeds both slots with the same record, active at `current_epoch`.
    pub fn new(
        wallet: Pubkey,
        dao_fee_share_bps: u64,
        ncn_fee_share_bps: u64,
        block_engine_fee_bps: u64,
        current_epoch: u64,
    ) -> (r: Fees)
        ensures
            r.fee_1 == (Fee {
                wallet,
                dao_share_bps: dao_fee_share_bps,
                ncn_share_bps: ncn_fee_share_bps,
                block_engine_fee_bps,
                activation_epoch: current_epoch,
            }),
            r.fee_2 == r.fee_1,
            forall|e: u64| current_epoch <= e ==> #[trigger] r.wf_at(e),
    {
        let fee = Fee::new(
            wallet,
            dao_fee_share_bps,
            ncn_fee_share_bps,
            block_engine_fee_bps,
            current_epoch,
        );
        Fees { fee_1: fee, fee_2: fee }
    }

    /// Copy of the record current at `current_epoch`.
    fn current_fee(&self, current_epoch: u64) -> (r: Fee)
        ensures
            r == self.spec_current_fee(current_epoch),
    {
        if self.fee_1.activation_epoch > current_epoch {
            self.fee_2
        } else if self.fee_2.activation_epoch > current_epoch {
            self.fee_1
        } else if self.fee_1.activation_epoch >= self.fee_2.activation_epoch {
            self.fee_1
        } else {
            self.fee_2
        }
    }

    /// The block-engine share current at `current_epoch`, in basis points.
    pub fn block_engine_fee(&self, current_epoch: u64) -> (r: u64)
        ensures
            r == self.spec_current_fee(current_epoch).block_engine_fee_bps,
    {
        self.current_fee(current_epoch).block_engine_fee_bps
    }

    /// The payout wallet current at `current_epoch`.
    pub fn fee_wallet(&self, current_epoch: u64) -> (r: Pubkey)
        ensures
            r == self.spec_current_fee(current_epoch).wallet,
    {
        self.current_fee(current_epoch).wallet
    }

    /// DAO share renormalized against the budget left after the block-engine
    /// share.
    pub fn dao_fee(&self, current_epoch: u64) -> (r: Result<u64, JitoTipRouterError>)
        ensures
            r == Self::spec_renormalized_fee(
                self.spec_current_fee(current_epoch).dao_share_bps,
                self.spec_current_fee(current_epoch).block_engine_fee_bps,
            ),
    {
        let fee = self.current_fee(current_epoch);
        Self::renormalized_fee(fee.dao_share_bps, fee.block_engine_fee_bps)
    }

    /// NCN share renormalized against the budget left after the block-engine
    /// share.
    pub fn ncn_fee(&self, current_epoch: u64) -> (r: Result<u64, JitoTipRouterError>)
        ensures
            r == Self::spec_renormalized_fee(
                self.spec_current_fee(current_epoch).ncn_share_bps,
                self.spec_current_fee(current_epoch).block_engine_fee_bps,
            ),
    {
        let fee = self.current_fee(current_epoch);
        Self::renormalized_fee(fee.ncn_share_bps, fee.block_engine_fee_bps)
    }

    /// Shared computation behind `dao_fee` and `ncn_fee`.
    fn renormalized_fee(share_bps: u64, block_engine_fee_bps: u64) -> (r: Result<
        u64,
        JitoTipRouterError,
    >)
        ensures
            r == Self::spec_renormalized_fee(share_bps, block_engine_fee_bps),
    {
        if block_engine_fee_bps > MAX_FEE_BPS {
            return Err(JitoTipRouterError::ArithmeticOverflow);
        }
        let remaining_bps = MAX_FEE_BPS - block_engine_fee_bps;
        proof {
            assert((share_bps as u128) * (MAX_FEE_BPS as u128) <= (u64::MAX as u128) * 10000)
                by (nonlinear_arith)
                requires
                    share_bps <= u64::MAX,
                    MAX_FEE_BPS == 10000,
            ;
        }
        let scaled = (share_bps as u128) * (MAX_FEE_BPS as u128);
        if scaled > u64::MAX as u128 {
            return Err(JitoTipRouterError::ArithmeticOverflow);
        }
        if remaining_bps == 0 {
            return Err(JitoTipRouterError::ArithmeticOverflow);
        }
        Ok((scaled / (remaining_bps as u128)) as u64)
    }

    /// Writes the slot picked by `spec_updatable_is_first`.
    fn write_updatable_slot(&mut self, first: bool, f: Fee)
        ensures
            *final(self) == old(self).spec_with_slot(first, f),
    {
        if first {
            self.fee_1 = f;
        } else {
            self.fee_2 = f;
        }
    }

    /// Applies an administrator fee update, effective from the next epoch.
    ///
    /// The baseline is the record current at `current_epoch`; provided fields
    /// override it one at a time, each rejected with `FeeCapExceeded` if over
    /// `MAX_FEE_BPS`, and the result is dated `current_epoch + 1`. The slot
    /// current at `current_epoch` is never written.
    pub fn set_new_fees(
        &mut self,
        new_dao_fee_bps: Option<u64>,
        new_ncn_fee_bps: Option<u64>,
        new_block_engine_fee_bps: Option<u64>,
        new_wallet: Option<Pubkey>,
        current_epoch: u64,
    ) -> (r: Result<(), JitoTipRouterError>)
        ensures
            ({
                let (s, res) = old(self).spec_set_new_fees(
                    new_dao_fee_bps,
                    new_ncn_fee_bps,
                    new_block_engine_fee_bps,
                    new_wallet,
                    current_epoch,
                );
                *final(self) == s && r == res
            }),
            r is Ok <==> current_epoch < u64::MAX && (new_dao_fee_bps is Some
                ==> new_dao_fee_bps->0 <= MAX_FEE_BPS) && (new_ncn_fee_bps is Some
                ==> new_ncn_fee_bps->0 <= MAX_FEE_BPS) && (new_block_engine_fee_bps is Some
                ==> new_block_engine_fee_bps->0 <= MAX_FEE_BPS),
            current_epoch == u64::MAX ==> r == Err::<(), JitoTipRouterError>(
                JitoTipRouterError::ArithmeticOverflow,
            ) && *final(self) == *old(self),
            old(self).wf_at(current_epoch) && r is Ok ==> final(self).wf_at(current_epoch)
                && final(self).spec_current_fee(current_epoch) == old(self).spec_current_fee(
                current_epoch,
            ),
    {
        proof {
            if current_epoch < u64::MAX && old(self).wf_at(current_epoch) {
                lemma_future_update_preserves_current_fee(
                    *old(self),
                    new_dao_fee_bps,
                    new_ncn_fee_bps,
                    new_block_engine_fee_bps,
                    new_wallet,
                    current_epoch,
                );
            }
        }
        if current_epoch == u64::MAX {
            return Err(JitoTipRouterError::ArithmeticOverflow);
        }
        let next_epoch = current_epoch + 1;
        let first = if self.fee_1.activation_epoch == next_epoch {
            true
        } else if self.fee_2.activation_epoch == next_epoch {
            false
        } else {
            self.fee_1.activation_epoch <= self.fee_2.activation_epoch
        };
        let mut f = self.current_fee(current_epoch);

        if let Some(v) = new_dao_fee_bps {
            if v > MAX_FEE_BPS {
                self.write_updatable_slot(first, f);
                return Err(JitoTipRouterError::FeeCapExceeded);
            }
            f.dao_share_bps = v;
        }
        if let Some(v) = new_ncn_fee_bps {
            if v > MAX_FEE_BPS {
                self.write_updatable_slot(first, f);
                return Err(JitoTipRouterError::FeeCapExceeded);
            }
            f.ncn_share_bps = v;
        }
        if let Some(v) = new_block_engine_fee_bps {
            if v > MAX_FEE_BPS {
                self.write_updatable_slot(first, f);
                return Err(JitoTipRouterError::FeeCapExceeded);
            }
            f.block_engine_fee_bps = v;
        }
        if let Some(w) = new_wallet {
            f.wallet = w;
        }
        f.activation_epoch = next_epoch;
        self.write_updatable_slot(first, f);
        Ok(())
    }
}

/// One administrator fee update request, as handed to `set_new_fees`.
#[derive(Clone, Copy, Debug)]
pub struct FeeUpdate {
    pub dao_fee_bps: Option<u64>,
    pub ncn_fee_bps: Option<u64>,
    pub block_engine_fee_bps: Option<u64>,
    pub wallet: Option<Pubkey>,
}

/// Every basis-point field of the request is within the 10000 bps cap.
pub open spec fn spec_update_within_caps(u: FeeUpdate) -> bool {
    &&& (u.dao_fee_bps is Some ==> u.dao_fee_bps->0 <= MAX_FEE_BPS)
    &&& (u.ncn_fee_bps is Some ==> u.ncn_fee_bps->0 <= MAX_FEE_BPS)
    &&& (u.block_engine_fee_bps is Some ==> u.block_engine_fee_bps->0 <= MAX_FEE_BPS)
}

/// The store after a whole sequence of updates, all made at `current_epoch`.
pub open spec fn spec_apply_updates(s: Fees, calls: Seq<FeeUpdate>, current_epoch: u64) -> Fees
    decreases calls.len(),
{
    if calls.len() == 0 {
        s
    } else {
        let s1 = s.spec_set_new_fees(
            calls[0].dao_fee_bps,
            calls[0].ncn_fee_bps,
            calls[0].block_engine_fee_bps,
            calls[0].wallet,
            current_epoch,
        ).0;
        spec_apply_updates(s1, calls.drop_first(), current_epoch)
    }
}

/// One successful update at epoch `e` is dated `e + 1`, so it never moves
/// the record a reader at `e` selects, and it keeps the store well-formed.
pub proof fn lemma_future_update_preserves_current_fee(
    s: Fees,
    new_dao_fee_bps: Option<u64>,
    new_ncn_fee_bps: Option<u64>,
    new_block_engine_fee_bps: Option<u64>,
    new_wallet: Option<Pubkey>,
    e: u64,
)
    requires
        s.wf_at(e),
        e < u64::MAX,
    ensures
        ({
            let (s2, r) = s.spec_set_new_fees(
                new_dao_fee_bps,
                new_ncn_fee_bps,
                new_block_engine_fee_bps,
                new_wallet,
                e,
            );
            r is Ok ==> s2.spec_current_fee(e) == s.spec_current_fee(e) && s2.wf_at(e)
        }),
{
}

/// Epoch consistency: a reader at epoch `e` sees the same fee record before
/// and after any sequence of in-cap updates made at `e`, because every such
/// update only targets the slot dated for epoch `e + 1`.
pub proof fn lemma_epoch_consistency(s: Fees, calls: Seq<FeeUpdate>, e: u64)
    requires
        s.wf_at(e),
        e < u64::MAX,
        forall|i: int| 0 <= i < calls.len() ==> spec_update_within_caps(#[trigger] calls[i]),
    ensures
        spec_apply_updates(s, calls, e).spec_current_fee(e) == s.spec_current_fee(e),
        spec_apply_updates(s, calls, e).wf_at(e),
    decreases calls.len(),
{
    if calls.len() > 0 {
        let u = calls[0];
        lemma_future_update_preserves_current_fee(
            s,
            u.dao_fee_bps,
            u.ncn_fee_bps,
            u.block_engine_fee_bps,
            u.wallet,
            e,
        );
        let s1 = s.spec_set_new_fees(
            u.dao_fee_bps,
            u.ncn_fee_bps,
            u.block_engine_fee_bps,
            u.wallet,
            e,
        ).0;
        assert(forall|i: int|
            0 <= i < calls.drop_first().len() ==> spec_update_within_caps(
                #[trigger] calls.drop_first()[i],
            ));
        lemma_epoch_consistency(s1, calls.drop_first(), e);
    }
}

/// No regression on tie: with both slots active at `e`, the reader picks the
/// slot with the strictly greater activation epoch, and an exact tie always
/// resolves to the first slot.
pub proof fn lemma_tie_break(s: Fees, e: u64)
    requires
        s.fee_1.activation_epoch <= e,
        s.fee_2.activation_epoch <= e,
    ensures
        s.fee_1.activation_epoch > s.fee_2.activation_epoch ==> s.spec_current_fee(e) == s.fee_1,
        s.fee_2.activation_epoch > s.fee_1.activation_epoch ==> s.spec_current_fee(e) == s.fee_2,
        s.fee_1.activation_epoch == s.fee_2.activation_epoch ==> s.spec_current_fee(e) == s.fee_1,
{
}

/// bps bound: an over-cap override is rejected with `FeeCapExceeded`, and
/// the rejected field in the target slot still holds the baseline value that
/// had been committed for it; the other slot is never written.
pub proof fn lemma_fee_cap_exceeded(
    s: Fees,
    new_dao_fee_bps: Option<u64>,
    new_ncn_fee_bps: Option<u64>,
    new_block_engine_fee_bps: Option<u64>,
    new_wallet: Option<Pubkey>,
    e: u64,
)
    requires
        e < u64::MAX,
    ensures
        ({
            let (s2, r) = s.spec_set_new_fees(
                new_dao_fee_bps,
                new_ncn_fee_bps,
                new_block_engine_fee_bps,
                new_wallet,
                e,
            );
            let base = s.spec_current_fee(e);
            let first = s.spec_updatable_is_first((e + 1) as u64);
            let slot = if first {
                s2.fee_1
            } else {
                s2.fee_2
            };
            &&& (new_dao_fee_bps is Some && new_dao_fee_bps->0 > MAX_FEE_BPS ==> r == Err::<
                (),
                JitoTipRouterError,
            >(JitoTipRouterError::FeeCapExceeded) && slot == base)
            &&& (new_ncn_fee_bps is Some && new_ncn_fee_bps->0 > MAX_FEE_BPS && (new_dao_fee_bps
                is Some ==> new_dao_fee_bps->0 <= MAX_FEE_BPS) ==> r == Err::<
                (),
                JitoTipRouterError,
            >(JitoTipRouterError::FeeCapExceeded) && slot.ncn_share_bps == base.ncn_share_bps
                && slot.activation_epoch == base.activation_epoch)
            &&& (new_block_engine_fee_bps is Some && new_block_engine_fee_bps->0 > MAX_FEE_BPS && (
            new_dao_fee_bps is Some ==> new_dao_fee_bps->0 <= MAX_FEE_BPS) && (new_ncn_fee_bps
                is Some ==> new_ncn_fee_bps->0 <= MAX_FEE_BPS) ==> r == Err::<
                (),
                JitoTipRouterError,
            >(JitoTipRouterError::FeeCapExceeded) && slot.block_engine_fee_bps
                == base.block_engine_fee_bps && slot.activation_epoch == base.activation_epoch)
            &&& (if first {
                s2.fee_2 == s.fee_2
            } else {
                s2.fee_1 == s.fee_1
            })
        }),
{
}

} // verus!
