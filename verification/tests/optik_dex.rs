use anchor_lang::prelude::Pubkey;
use optik_programs::optik_dex::{id, initialize, Initialize, ID, INITIALIZE_LOG};
use std::str::FromStr;

#[test]
fn optik_dex_initialize_succeeds_and_logs_its_line() {
    let result = initialize(Initialize {});
    assert!(result.is_ok());
    assert_eq!(result.unwrap(), "OPTIK DEX initialized!");
}

#[test]
fn optik_dex_log_line_is_the_constant() {
    assert_eq!(INITIALIZE_LOG, "OPTIK DEX initialized!");
    assert_eq!(INITIALIZE_LOG.len(), 22);
    assert_eq!(initialize(Initialize {}).unwrap(), INITIALIZE_LOG);
}

#[test]
fn optik_dex_repeated_calls_each_succeed_alike() {
    let first = initialize(Initialize {}).unwrap();
    for _ in 0..100 {
        let next = initialize(Initialize {});
        assert!(next.is_ok());
        assert_eq!(next.unwrap(), first);
    }
}

#[test]
fn optik_dex_calls_with_equal_accounts_agree() {
    let accounts = Initialize {};
    let copy = accounts;
    assert_eq!(accounts, copy);
    assert_eq!(initialize(accounts).unwrap(), initialize(copy).unwrap());
}

#[test]
fn optik_dex_id_is_the_constant() {
    assert_eq!(ID, "Eefs4TWaVJLx6rLBC1Fbcoj58yRmadZMfQ8DQgVJzSB3");
    assert_eq!(id(), "Eefs4TWaVJLx6rLBC1Fbcoj58yRmadZMfQ8DQgVJzSB3");
    assert_eq!(id(), id());
}

#[test]
fn optik_dex_id_is_an_address() {
    let address = Pubkey::from_str(ID);
    assert!(address.is_ok());
    let address = address.unwrap();
    assert_eq!(address.to_bytes().len(), 32);
    assert_eq!(address.to_string(), ID);
}
