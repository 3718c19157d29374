use tip_router::pubkey::Pubkey;
use tip_router::error::JitoTipRouterError;
use tip_router::weight_table::{WeightEntry, WeightTable};

fn key(tag: u8) -> Pubkey {
    let mut bytes = [0u8; 32];
    bytes[0] = tag;
    bytes[31] = tag.wrapping_add(1);
    Pubkey(bytes)
}

#[test]
fn test_weight_table_new() {
    let ncn = key(9);
    let table = WeightTable::new(ncn, 0, 0, 0);
    assert_eq!(table.entry_count(), 0);
}

#[test]
fn test_weight_table_finalize() {
    let mut weight_table = WeightTable::new(key(10), 0, 0, 0);

    assert!(!weight_table.finalized());
    assert_eq!(weight_table.slot_finalized(), WeightTable::NOT_FINALIZED);

    weight_table.finalize(0);
    assert!(weight_table.finalized());
}

#[test]
fn test_finalize_is_one_way() {
    let mut table = WeightTable::new(key(1), 4, 100, 0);
    table.finalize(250);
    assert_eq!(table.slot_finalized(), 250);
    table.finalize(999);
    assert_eq!(table.slot_finalized(), 250);
    assert!(table.finalized());
}

#[test]
fn test_new_table_fields() {
    let ncn = key(3);
    let table = WeightTable::new(ncn, 7, 42, 5);
    assert_eq!(table.ncn(), ncn);
    assert_eq!(table.ncn_epoch(), 7);
    assert_eq!(table.slot_created(), 42);
    assert_eq!(table.slot_finalized(), u64::MAX);
    assert!(!table.finalized());
    assert!(table.get_mints().is_empty());
}

#[test]
fn test_set_weight_idempotent() {
    let mut table = WeightTable::new(key(1), 0, 0, 0);
    let mint = key(2);
    assert_eq!(table.set_weight(&mint, 500), Ok(()));
    assert_eq!(table.entry_count(), 1);
    assert_eq!(table.find_weight(&mint), Some(500));
    assert_eq!(table.set_weight(&mint, 900), Ok(()));
    assert_eq!(table.entry_count(), 1);
    assert_eq!(table.find_weight(&mint), Some(900));
}

#[test]
fn test_find_weight_missing() {
    let mut table = WeightTable::new(key(1), 0, 0, 0);
    assert_eq!(table.find_weight(&key(8)), None);
    table.set_weight(&key(8), 1).unwrap();
    assert_eq!(table.find_weight(&key(9)), None);
}

#[test]
fn test_capacity_limit() {
    let mut table = WeightTable::new(key(0), 0, 0, 0);
    for i in 0..32u8 {
        let mint = key(i.wrapping_add(1));
        assert_eq!(table.set_weight(&mint, i as u128), Ok(()));
    }
    assert_eq!(table.entry_count(), 32);

    let extra = key(100);
    assert_eq!(
        table.set_weight(&extra, 7),
        Err(JitoTipRouterError::TooManyMintsForTable)
    );
    assert_eq!(table.entry_count(), 32);

    let existing = key(5);
    assert_eq!(table.set_weight(&existing, 777), Ok(()));
    assert_eq!(table.entry_count(), 32);
    assert_eq!(table.find_weight(&existing), Some(777));
}

#[test]
fn test_mint_hash_order_invariance() {
    let a = key(11);
    let b = key(22);
    let c = key(33);
    let h1 = WeightTable::get_mint_hash(vec![a, b, c]);
    let h2 = WeightTable::get_mint_hash(vec![c, a, b]);
    let h3 = WeightTable::get_mint_hash(vec![b, c, a]);
    assert_eq!(h1, h2);
    assert_eq!(h1, h3);
}

#[test]
fn test_mint_hash_exact_value() {
    // One mint whose low eight bytes read 0x0807060504030201 little-endian.
    let mut bytes = [0u8; 32];
    for i in 0..8 {
        bytes[i] = (i + 1) as u8;
    }
    let one = Pubkey(bytes);
    assert_eq!(WeightTable::get_mint_hash(vec![one]), 0x0807060504030201);
    // Folding the same mint twice cancels out.
    assert_eq!(WeightTable::get_mint_hash(vec![one, one]), 0);
    assert_eq!(WeightTable::get_mint_hash(vec![]), 0);
}

#[test]
fn test_check_mints_okay() {
    let mut table = WeightTable::new(key(1), 0, 0, 0);
    table.set_weight(&key(2), 10).unwrap();
    table.set_weight(&key(3), 20).unwrap();

    let hash = WeightTable::get_mint_hash(table.get_mints());
    assert_eq!(table.check_mints_okay(hash, 2), Ok(()));
    assert_eq!(
        table.check_mints_okay(hash, 3),
        Err(JitoTipRouterError::WeightMintsDoNotMatchLength)
    );
    assert_eq!(
        table.check_mints_okay(hash ^ 1, 2),
        Err(JitoTipRouterError::WeightMintsDoNotMatchMintHash)
    );
}

#[test]
fn test_get_mints_in_table_order() {
    let mut table = WeightTable::new(key(1), 0, 0, 0);
    table.set_weight(&key(7), 1).unwrap();
    table.set_weight(&key(4), 2).unwrap();
    table.set_weight(&key(6), 3).unwrap();
    assert_eq!(table.get_mints(), vec![key(7), key(4), key(6)]);
}

#[test]
fn test_set_weight_zero_mint_updates_an_empty_slot() {
    let mut table = WeightTable::new(key(1), 0, 0, 0);
    let zero = Pubkey([0u8; 32]);
    assert_eq!(table.set_weight(&zero, 5), Ok(()));
    // The slot that took the weight still carries the sentinel mint, so it
    // stays empty and the occupied count does not move.
    assert_eq!(table.entry_count(), 0);
    assert_eq!(table.find_weight(&zero), Some(5));
}

#[test]
fn test_weight_entry_is_empty() {
    let empty = WeightEntry::new(Pubkey([0u8; 32]), 0);
    assert!(empty.is_empty());
    let full = WeightEntry::new(key(1), 3);
    assert!(!full.is_empty());
}

#[test]
fn test_weight_table_seeds() {
    let ncn = key(5);
    let seeds = WeightTable::seeds(&ncn, 0x0102030405060708);
    assert_eq!(seeds.len(), 3);
    assert_eq!(seeds[0], b"WEIGHT_TABLE".to_vec());
    assert_eq!(seeds[1], ncn.0.to_vec());
    assert_eq!(seeds[2], vec![0x08, 0x07, 0x06, 0x05, 0x04, 0x03, 0x02, 0x01]);
}

#[test]
fn test_find_program_address_depends_on_inputs() {
    let program_id = key(40);
    let ncn = key(41);
    let (pda, _bump, seeds) = WeightTable::find_program_address(&program_id, &ncn, 3).unwrap();
    assert_ne!(pda, program_id);
    assert_ne!(pda, ncn);
    assert_eq!(seeds.len(), 3);

    // Deterministic in its inputs, and sensitive to each of them.
    let (pda_again, _, _) = WeightTable::find_program_address(&program_id, &ncn, 3).unwrap();
    assert_eq!(pda, pda_again);
    let (other_epoch, _, _) = WeightTable::find_program_address(&program_id, &ncn, 4).unwrap();
    assert_ne!(pda, other_epoch);
    let (other_ncn, _, _) = WeightTable::find_program_address(&program_id, &key(42), 3).unwrap();
    assert_ne!(pda, other_ncn);
}
