use tip_router::error::JitoTipRouterError;
use tip_router::fees::Fees;
use tip_router::pubkey::Pubkey;

fn wallet(tag: u8) -> Pubkey {
    let mut bytes = [0u8; 32];
    bytes[0] = tag;
    Pubkey(bytes)
}

#[test]
fn test_new_fees_seed_both_slots() {
    let w = wallet(1);
    let fees = Fees::new(w, 100, 200, 50, 5);
    assert_eq!(fees.fee_wallet(5), w);
    assert_eq!(fees.block_engine_fee(5), 50);
    // Both slots are identical, so any epoch reads the same record.
    assert_eq!(fees.block_engine_fee(0), 50);
    assert_eq!(fees.block_engine_fee(u64::MAX), 50);
}

#[test]
fn test_end_to_end_scenario() {
    // Seeded at epoch 5 with dao=100bps, ncn=200bps, protocol=50bps.
    let w = wallet(1);
    let mut fees = Fees::new(w, 100, 200, 50, 5);

    assert_eq!(fees.set_new_fees(Some(150), None, None, None, 5), Ok(()));

    // A reader still at epoch 5 is unaffected: dao renormalizes to 100.
    assert_eq!(fees.dao_fee(5), Ok(100 * 10_000 / 9_950));
    assert_eq!(fees.dao_fee(5), Ok(100));
    assert_eq!(fees.block_engine_fee(5), 50);

    // From epoch 6 the new schedule holds: dao=150, ncn=200, protocol=50.
    assert_eq!(fees.dao_fee(6), Ok(150 * 10_000 / 9_950));
    assert_eq!(fees.dao_fee(6), Ok(150));
    assert_eq!(fees.ncn_fee(6), Ok(200 * 10_000 / 9_950));
    assert_eq!(fees.ncn_fee(6), Ok(201));
    assert_eq!(fees.block_engine_fee(6), 50);
    assert_eq!(fees.fee_wallet(6), w);
}

#[test]
fn test_fee_cap_exceeded_per_field() {
    let w = wallet(1);
    let mut fees = Fees::new(w, 100, 200, 50, 5);

    assert_eq!(
        fees.set_new_fees(Some(10_001), None, None, None, 5),
        Err(JitoTipRouterError::FeeCapExceeded)
    );
    assert_eq!(
        fees.set_new_fees(None, Some(10_001), None, None, 5),
        Err(JitoTipRouterError::FeeCapExceeded)
    );
    assert_eq!(
        fees.set_new_fees(None, None, Some(10_001), None, 5),
        Err(JitoTipRouterError::FeeCapExceeded)
    );
    // The cap itself is accepted.
    assert_eq!(fees.set_new_fees(Some(10_000), None, None, None, 5), Ok(()));
    // Readers at epoch 5 still see the seeded schedule after all of that.
    assert_eq!(fees.block_engine_fee(5), 50);
    assert_eq!(fees.fee_wallet(5), w);
}

#[test]
fn test_rejected_field_leaves_earlier_fields_committed() {
    // A rejection on the second field leaves the first field's new value
    // already committed in the target slot, dated with the baseline's
    // activation epoch.
    let w = wallet(1);
    let mut fees = Fees::new(w, 100, 200, 50, 5);
    assert_eq!(
        fees.set_new_fees(Some(120), Some(10_001), None, None, 5),
        Err(JitoTipRouterError::FeeCapExceeded)
    );
    // Both slots now carry activation epoch 5, and the tie resolves to the
    // partially written first slot: the sharp edge is visible at epoch 5.
    assert_eq!(fees.dao_fee(5), Ok(120));
    assert_eq!(fees.ncn_fee(5), Ok(201));
}

#[test]
fn test_epoch_overflow() {
    let w = wallet(1);
    let mut fees = Fees::new(w, 100, 200, 50, 5);
    assert_eq!(
        fees.set_new_fees(Some(150), None, None, None, u64::MAX),
        Err(JitoTipRouterError::ArithmeticOverflow)
    );
    // The store is untouched on that failure.
    assert_eq!(fees.dao_fee(5), Ok(100));
}

#[test]
fn test_wallet_update() {
    let w1 = wallet(1);
    let w2 = wallet(2);
    let mut fees = Fees::new(w1, 100, 200, 50, 5);
    assert_eq!(fees.set_new_fees(None, None, None, Some(w2), 5), Ok(()));
    assert_eq!(fees.fee_wallet(5), w1);
    assert_eq!(fees.fee_wallet(6), w2);
}

#[test]
fn test_second_update_in_same_epoch_reuses_pending_slot() {
    let w = wallet(1);
    let mut fees = Fees::new(w, 100, 200, 50, 5);
    assert_eq!(fees.set_new_fees(Some(150), None, None, None, 5), Ok(()));
    assert_eq!(fees.set_new_fees(None, Some(300), None, None, 5), Ok(()));
    // The second update reuses the slot already dated for epoch 6, but its
    // baseline is the still-active record, so the first pending change is
    // overwritten rather than accumulated.
    assert_eq!(fees.dao_fee(6), Ok(100));
    assert_eq!(fees.ncn_fee(6), Ok(301));
    // Epoch 5 readers still see the seeded schedule.
    assert_eq!(fees.dao_fee(5), Ok(100));
    assert_eq!(fees.ncn_fee(5), Ok(201));
}

#[test]
fn test_tie_breaks_and_later_slot_wins() {
    let w = wallet(1);
    let mut fees = Fees::new(w, 100, 200, 50, 5);
    assert_eq!(fees.set_new_fees(Some(150), None, None, None, 5), Ok(()));
    assert_eq!(fees.set_new_fees(Some(175), None, None, None, 6), Ok(()));
    // At epoch 6 the slot activated at 6 beats the one activated at 5.
    assert_eq!(fees.dao_fee(6), Ok(150));
    // At epoch 7 the newest activation wins.
    assert_eq!(fees.dao_fee(7), Ok(175));
}

#[test]
fn test_renormalization_failures() {
    let w = wallet(1);
    // A full protocol share leaves no remaining budget.
    let fees = Fees::new(w, 100, 200, 10_000, 5);
    assert_eq!(fees.dao_fee(5), Err(JitoTipRouterError::ArithmeticOverflow));
    assert_eq!(fees.ncn_fee(5), Err(JitoTipRouterError::ArithmeticOverflow));
    // An out-of-range stored share overflows the scaling multiply.
    let fees = Fees::new(w, u64::MAX / 1000, 200, 50, 5);
    assert_eq!(fees.dao_fee(5), Err(JitoTipRouterError::ArithmeticOverflow));
    // A zero share is fine.
    let fees = Fees::new(w, 0, 0, 50, 5);
    assert_eq!(fees.dao_fee(5), Ok(0));
    assert_eq!(fees.ncn_fee(5), Ok(0));
}

#[test]
fn test_error_codes() {
    assert_eq!(JitoTipRouterError::DenominatorIsZero.error_code(), 0x2100);
    assert_eq!(JitoTipRouterError::ArithmeticOverflow.error_code(), 0x2101);
    assert_eq!(JitoTipRouterError::TooManyMintsForTable.error_code(), 0x2203);
    assert_eq!(JitoTipRouterError::WeightMintsDoNotMatchLength.error_code(), 0x2206);
    assert_eq!(JitoTipRouterError::WeightMintsDoNotMatchMintHash.error_code(), 0x2207);
    assert_eq!(JitoTipRouterError::FeeCapExceeded.error_code(), 0x2300);
    assert_eq!(JitoTipRouterError::IncorrectFeeAdmin.error_code(), 0x2402);
}
