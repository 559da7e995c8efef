use stablecoin::events::{
    ControllerConfigured, IncreaseAllowance, Mint, MinterConfigured, SetAllowance, Transfer,
    TransferFrom,
};
use stablecoin::{Address, Amount, Cep18Modality, Error, Event, Role, Stablecoin, StablecoinModality};

fn acct(i: u8) -> Address {
    Address::Account([i; 32])
}

fn amt(v: u128) -> Amount {
    Amount::from_u128(v)
}

const SUPPLY: u128 = 1_000_000_000;

/// Deployed by A0 with master minter A1, blacklister A4, pauser A6, owner A7.
fn deployed() -> Stablecoin {
    Stablecoin::init(
        &acct(0),
        "USDC".to_string(),
        "USDCoin".to_string(),
        2,
        amt(SUPPLY),
        vec![acct(1)],
        vec![acct(7)],
        vec![acct(6)],
        acct(4),
        Some(StablecoinModality::MintAndBurn),
    )
}

/// A1 binds controller A2 to minter A3; A2 gives A3 an allowance of 10.
fn with_minter() -> Stablecoin {
    let mut t = deployed();
    t.configure_controller(&acct(1), &acct(2), &acct(3)).unwrap();
    t.configure_minter_allowance(&acct(2), &amt(10)).unwrap();
    t
}

fn events_after(t: &Stablecoin, skip: usize) -> Vec<Event> {
    t.events()[skip..].to_vec()
}

#[test]
fn scenario_mint_under_allowance() {
    let mut t = deployed();
    let start = t.events().len();
    t.configure_controller(&acct(1), &acct(2), &acct(3)).unwrap();
    t.configure_minter_allowance(&acct(2), &amt(10)).unwrap();
    t.mint(&acct(3), &acct(5), &amt(10)).unwrap();
    assert_eq!(t.balance_of(&acct(5)), amt(10));
    assert_eq!(t.minter_allowance(&acct(3)), amt(0));
    assert_eq!(t.total_supply(), amt(1_000_000_010));
    assert_eq!(
        events_after(&t, start),
        vec![
            Event::ControllerConfigured(ControllerConfigured { controller: acct(2), minter: acct(3) }),
            Event::MinterConfigured(MinterConfigured { minter: acct(3), minter_allowance: amt(10) }),
            Event::Mint(Mint { recipient: acct(5), amount: amt(10) }),
        ]
    );
}

#[test]
fn scenario_mint_exceeds_allowance() {
    let mut t = with_minter();
    let events = t.events().len();
    assert_eq!(t.mint(&acct(3), &acct(5), &amt(11)), Err(Error::InsufficientMinterAllowance));
    assert_eq!(t.balance_of(&acct(5)), amt(0));
    assert_eq!(t.minter_allowance(&acct(3)), amt(10));
    assert_eq!(t.total_supply(), amt(SUPPLY));
    assert_eq!(t.events().len(), events);
}

#[test]
fn scenario_non_minter_cannot_mint() {
    let mut t = with_minter();
    assert_eq!(t.mint(&acct(5), &acct(5), &amt(10)), Err(Error::InsufficientRights));
}

#[test]
fn scenario_revoked_minter_cannot_mint() {
    let mut t = with_minter();
    t.remove_minter(&acct(2)).unwrap();
    assert_eq!(t.mint(&acct(3), &acct(5), &amt(10)), Err(Error::InsufficientRights));
    assert_eq!(t.minter_allowance(&acct(3)), amt(10));
    assert!(!t.is_minter(&acct(3)));
}

#[test]
fn scenario_pause_blocks_mint_but_not_admin() {
    let mut t = with_minter();
    t.pause(&acct(6)).unwrap();
    assert_eq!(t.mint(&acct(3), &acct(5), &amt(5)), Err(Error::ContractIsPaused));
    t.remove_controller(&acct(1), &acct(2)).unwrap();
    t.unpause(&acct(6)).unwrap();
    t.mint(&acct(3), &acct(5), &amt(5)).unwrap();
    assert_eq!(t.balance_of(&acct(5)), amt(5));
}

#[test]
fn scenario_transfer_from_spends_allowance() {
    let mut t = deployed();
    let start = t.events().len();
    t.approve(&acct(0), &acct(1), &amt(456_789)).unwrap();
    t.transfer_from(&acct(1), &acct(0), &acct(1), &amt(200_001)).unwrap();
    assert_eq!(t.balance_of(&acct(0)), amt(999_799_999));
    assert_eq!(t.balance_of(&acct(1)), amt(200_001));
    assert_eq!(t.allowance(&acct(0), &acct(1)), amt(256_788));
    assert_eq!(
        events_after(&t, start),
        vec![
            Event::SetAllowance(SetAllowance {
                owner: acct(0),
                spender: acct(1),
                allowance: amt(456_789),
            }),
            Event::TransferFrom(TransferFrom {
                spender: acct(1),
                owner: acct(0),
                recipient: acct(1),
                amount: amt(200_001),
            }),
            Event::Transfer(Transfer { sender: acct(0), recipient: acct(1), amount: amt(200_001) }),
        ]
    );
}

#[test]
fn transfer_from_by_third_party_spends_the_spender_allowance() {
    let mut t = deployed();
    t.approve(&acct(0), &acct(8), &amt(100)).unwrap();
    t.transfer_from(&acct(8), &acct(0), &acct(9), &amt(40)).unwrap();
    assert_eq!(t.allowance(&acct(0), &acct(8)), amt(60));
    assert_eq!(t.allowance(&acct(0), &acct(9)), amt(0));
    assert_eq!(t.balance_of(&acct(9)), amt(40));
}

#[test]
fn balances_sum_to_supply_after_operations() {
    let mut t = with_minter();
    t.mint(&acct(3), &acct(3), &amt(7)).unwrap();
    t.transfer(&acct(0), &acct(5), &amt(1000)).unwrap();
    t.burn(&acct(3), &amt(2)).unwrap();
    t.transfer(&acct(3), &acct(5), &amt(5)).unwrap();
    let holders = [acct(0), acct(3), acct(5)];
    let mut sum: u128 = 0;
    for h in holders.iter() {
        sum += t.balance_of(h).lo;
    }
    assert_eq!(amt(sum), t.total_supply());
    assert_eq!(t.total_supply(), amt(SUPPLY + 5));
}

#[test]
fn mint_refused_for_each_missing_condition() {
    let mut t = with_minter();
    t.blacklist(&acct(4), &acct(5)).unwrap();
    assert_eq!(t.mint(&acct(3), &acct(5), &amt(1)), Err(Error::InsufficientRights));
    t.blacklist(&acct(4), &acct(3)).unwrap();
    assert_eq!(t.mint(&acct(3), &acct(8), &amt(1)), Err(Error::InsufficientRights));
    t.unblacklist(&acct(4), &acct(3)).unwrap();
    t.mint(&acct(3), &acct(8), &amt(1)).unwrap();

    let mut plain = Stablecoin::init(
        &acct(0),
        "USDC".to_string(),
        "USDCoin".to_string(),
        2,
        amt(SUPPLY),
        vec![acct(1)],
        vec![],
        vec![],
        acct(4),
        None,
    );
    plain.configure_controller(&acct(1), &acct(2), &acct(3)).unwrap();
    plain.configure_minter_allowance(&acct(2), &amt(10)).unwrap();
    assert_eq!(plain.mint(&acct(3), &acct(8), &amt(1)), Err(Error::MintBurnDisabled));
    assert_eq!(plain.burn(&acct(3), &amt(1)), Err(Error::MintBurnDisabled));
}

#[test]
fn mint_past_the_largest_supply_overflows() {
    let mut t = Stablecoin::init(
        &acct(0),
        "USDC".to_string(),
        "USDCoin".to_string(),
        2,
        Amount::max_value(),
        vec![acct(1)],
        vec![],
        vec![],
        acct(4),
        Some(StablecoinModality::MintAndBurn),
    );
    t.configure_controller(&acct(1), &acct(2), &acct(3)).unwrap();
    t.configure_minter_allowance(&acct(2), &amt(10)).unwrap();
    assert_eq!(t.mint(&acct(3), &acct(5), &amt(1)), Err(Error::ArithmeticOverflow));
    t.mint(&acct(3), &acct(5), &amt(0)).unwrap();
    assert_eq!(t.total_supply(), Amount::max_value());
}

#[test]
fn approve_overwrites() {
    let mut t = deployed();
    t.approve(&acct(0), &acct(1), &amt(30)).unwrap();
    t.approve(&acct(0), &acct(1), &amt(12)).unwrap();
    assert_eq!(t.allowance(&acct(0), &acct(1)), amt(12));
}

#[test]
fn increase_allowance_twice_saturates() {
    let mut t = deployed();
    t.increase_allowance(&acct(0), &acct(1), &amt(5)).unwrap();
    t.increase_allowance(&acct(0), &acct(1), &amt(7)).unwrap();
    assert_eq!(t.allowance(&acct(0), &acct(1)), amt(12));
    let near_max = Amount::from_parts(u128::MAX, u128::MAX - 3);
    t.increase_allowance(&acct(0), &acct(1), &near_max).unwrap();
    t.increase_allowance(&acct(0), &acct(1), &amt(1)).unwrap();
    assert_eq!(t.allowance(&acct(0), &acct(1)), Amount::max_value());
    assert_eq!(
        t.events().last(),
        Some(&Event::IncreaseAllowance(IncreaseAllowance {
            owner: acct(0),
            spender: acct(1),
            allowance: Amount::max_value(),
            inc_by: amt(1),
        }))
    );
    assert_eq!(t.increase_allowance(&acct(0), &acct(0), &amt(1)), Err(Error::CannotTargetSelfUser));
}

#[test]
fn decrease_allowance_twice_stops_at_zero() {
    let mut t = deployed();
    t.approve(&acct(0), &acct(1), &amt(10)).unwrap();
    t.decrease_allowance(&acct(0), &acct(1), &amt(3)).unwrap();
    t.decrease_allowance(&acct(0), &acct(1), &amt(4)).unwrap();
    assert_eq!(t.allowance(&acct(0), &acct(1)), amt(3));
    t.decrease_allowance(&acct(0), &acct(1), &amt(2)).unwrap();
    t.decrease_allowance(&acct(0), &acct(1), &amt(5)).unwrap();
    assert_eq!(t.allowance(&acct(0), &acct(1)), amt(0));
}

#[test]
fn transfer_from_over_allowance_changes_nothing() {
    let mut t = deployed();
    t.approve(&acct(0), &acct(1), &amt(10)).unwrap();
    let events = t.events().len();
    assert_eq!(t.transfer_from(&acct(1), &acct(0), &acct(2), &amt(11)), Err(Error::InsufficientAllowance));
    assert_eq!(t.allowance(&acct(0), &acct(1)), amt(10));
    assert_eq!(t.balance_of(&acct(0)), amt(SUPPLY));
    assert_eq!(t.balance_of(&acct(2)), amt(0));
    assert_eq!(t.events().len(), events);
}

#[test]
fn account_and_contract_are_distinct_keys() {
    let mut t = deployed();
    let x = [9u8; 32];
    t.transfer(&acct(0), &Address::Account(x), &amt(50)).unwrap();
    assert_eq!(t.balance_of(&Address::Account(x)), amt(50));
    assert_eq!(t.balance_of(&Address::Contract(x)), amt(0));
    t.approve(&acct(0), &Address::Contract(x), &amt(5)).unwrap();
    assert_eq!(t.allowance(&acct(0), &Address::Account(x)), amt(0));
    assert_ne!(Address::Account(x), Address::Contract(x));
}

#[test]
fn blacklist_round_trip() {
    let mut t = deployed();
    assert!(!t.is_blacklisted(&acct(5)));
    t.blacklist(&acct(4), &acct(5)).unwrap();
    assert!(t.is_blacklisted(&acct(5)));
    assert_eq!(t.transfer(&acct(5), &acct(0), &amt(0)), Err(Error::InsufficientRights));
    t.unblacklist(&acct(4), &acct(5)).unwrap();
    assert!(!t.is_blacklisted(&acct(5)));
    assert_eq!(t.blacklist(&acct(5), &acct(0)), Err(Error::InsufficientRights));
}

#[test]
fn pause_round_trip() {
    let mut t = deployed();
    t.pause(&acct(6)).unwrap();
    assert_eq!(t.transfer(&acct(0), &acct(1), &amt(1)), Err(Error::ContractIsPaused));
    assert_eq!(t.approve(&acct(0), &acct(1), &amt(1)), Err(Error::ContractIsPaused));
    t.unpause(&acct(6)).unwrap();
    t.transfer(&acct(0), &acct(1), &amt(1)).unwrap();
    assert_eq!(t.balance_of(&acct(1)), amt(1));
    assert_eq!(t.pause(&acct(1)), Err(Error::InsufficientRights));
    assert!(t.is_pausers(&acct(6)));
}

#[test]
fn removed_controller_is_inert() {
    let mut t = deployed();
    t.configure_controller(&acct(1), &acct(2), &acct(3)).unwrap();
    t.remove_controller(&acct(1), &acct(2)).unwrap();
    assert_eq!(t.get_minter(&acct(2)), Err(Error::InsufficientRights));
    assert_eq!(t.remove_minter(&acct(2)), Err(Error::InsufficientRights));
    assert_eq!(t.configure_minter_allowance(&acct(2), &amt(3)), Err(Error::InsufficientRights));
    assert_eq!(t.remove_controller(&acct(2), &acct(2)), Err(Error::InsufficientRights));
}

#[test]
fn controller_errors() {
    let mut t = deployed();
    t.configure_controller(&acct(1), &acct(2), &acct(3)).unwrap();
    assert_eq!(t.get_minter(&acct(2)), Ok(acct(3)));
    assert_eq!(t.decrease_minter_allowance(&acct(2), &amt(1)), Err(Error::ArithmeticUnderflow));
    t.configure_minter_allowance(&acct(2), &Amount::max_value()).unwrap();
    assert_eq!(t.increase_minter_allowance(&acct(2), &amt(1)), Err(Error::ArithmeticOverflow));
    t.blacklist(&acct(4), &acct(3)).unwrap();
    assert_eq!(t.configure_minter_allowance(&acct(2), &amt(1)), Err(Error::InsufficientRights));
    assert_eq!(t.configure_controller(&acct(1), &acct(8), &acct(3)), Err(Error::InsufficientRights));
    assert_eq!(t.configure_controller(&acct(0), &acct(8), &acct(9)), Err(Error::InsufficientRights));
}

#[test]
fn update_blacklister_moves_the_role() {
    let mut t = deployed();
    assert_eq!(t.update_blacklister(&acct(0), &acct(8)), Err(Error::InsufficientRights));
    assert!(t.is_owner(&acct(7)));
    let events = t.events().len();
    t.update_blacklister(&acct(7), &acct(8)).unwrap();
    assert_eq!(t.events().len(), events + 1);
    assert_eq!(t.blacklist(&acct(4), &acct(5)), Err(Error::InsufficientRights));
    t.blacklist(&acct(8), &acct(5)).unwrap();
    assert!(t.is_blacklisted(&acct(5)));
}

#[test]
fn burn_errors() {
    let mut t = with_minter();
    assert_eq!(t.burn(&acct(0), &amt(1)), Err(Error::InsufficientRights));
    assert_eq!(t.burn(&acct(3), &amt(0)), Err(Error::InvalidAmount));
    assert_eq!(t.burn(&acct(3), &amt(1)), Err(Error::InsufficientBalance));
}

#[test]
fn error_codes_are_distinct() {
    let all = [
        Error::InsufficientRights,
        Error::MissingController,
        Error::MissingBlacklister,
        Error::InsufficientBalance,
        Error::InsufficientAllowance,
        Error::InsufficientMinterAllowance,
        Error::ArithmeticOverflow,
        Error::ArithmeticUnderflow,
        Error::CannotTargetSelfUser,
        Error::InvalidBurnTarget,
        Error::InvalidAmount,
        Error::MintBurnDisabled,
        Error::ContractIsPaused,
    ];
    for (i, a) in all.iter().enumerate() {
        for b in all[i + 1..].iter() {
            assert_ne!(a.code(), b.code());
        }
    }
    assert_eq!(Error::ContractIsPaused.code(), 60013);
}

#[test]
fn amount_arithmetic() {
    let big = Amount::from_parts(1, 0);
    assert_eq!(amt(u128::MAX).checked_add(&amt(1)), Some(big));
    assert_eq!(big.checked_sub(&amt(1)), Some(amt(u128::MAX)));
    assert_eq!(amt(1).checked_sub(&amt(2)), None);
    assert_eq!(Amount::max_value().checked_add(&amt(1)), None);
    assert_eq!(Amount::max_value().saturating_add(&big), Amount::max_value());
    assert_eq!(amt(3).saturating_sub(&amt(5)), Amount::zero());
    assert_eq!(amt(7).saturating_sub(&amt(5)), amt(2));
    assert!(amt(3).lt(&big));
    assert!(!big.lt(&amt(3)));
    assert!(Amount::zero().is_zero());
    assert!(!big.is_zero());
}

#[test]
fn modality_flags() {
    assert!(StablecoinModality::MintAndBurn.mint_and_burn_enabled());
    assert!(!StablecoinModality::Unset.mint_and_burn_enabled());
    assert!(Cep18Modality::MintAndBurn.mint_and_burn_enabled());
    assert!(!Cep18Modality::default().mint_and_burn_enabled());
    assert_eq!(u8::from(StablecoinModality::MintAndBurn), 1);
    assert_eq!(u8::from(Cep18Modality::Unset), 0);
    assert_ne!(Role::Minter, Role::Controller);
}
