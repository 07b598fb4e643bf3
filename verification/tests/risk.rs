use pump_sniper::double::Double;
use pump_sniper::risk::{dev_holder_account, dev_holder_pct, dev_holder_units, is_legacy_spl_token};
use pump_sniper::wallet::{parse_address, token_account};

#[test]
fn the_legacy_program_is_known() {
    let key = parse_address("TokenkegQfeZyiNwAJbNbGKPFXCWuBvf9Ss623VQ5DA").unwrap();
    assert!(is_legacy_spl_token(&key));
    let newer = parse_address("TokenzQdBNbLqP5VEhdkAS6EPFLC1PHnBqCXEpPxuEb").unwrap();
    assert!(!is_legacy_spl_token(&newer));
    let mut near = key;
    near[31] ^= 1;
    assert!(!is_legacy_spl_token(&near));
}

#[test]
fn a_token_without_supply_is_held_by_nobody() {
    assert_eq!(dev_holder_account([1; 32], [2; 32], 0), None);
    assert_eq!(dev_holder_account([1; 32], [2; 32], 5), Some(token_account([1; 32], [2; 32])));
    let share = Double { bits: 12.5f64.to_bits() };
    assert_eq!(dev_holder_pct(0, share).bits, 0);
    assert_eq!(dev_holder_pct(8, share).bits, share.bits);
}

#[test]
fn balances_that_cannot_be_read_count_as_nothing() {
    assert_eq!(dev_holder_units(Some("123")), 123);
    assert_eq!(dev_holder_units(Some("12x")), 0);
    assert_eq!(dev_holder_units(Some("99999999999999999999")), 0);
    assert_eq!(dev_holder_units(None), 0);
}
