use eil::config::{Fraction, XlpSelectionConfig};
use eil::contract_types::XlpEntry;
use eil::multichain::MultichainToken;
use eil::types::{Amount, RuntimeVar, TokenAmount};
use eil::voucher::get_solvent_xlps;
use eil::xlp::{amounts_required, covers, select_allowed_xlps, select_xlps, sort_addresses, SolventXlpInfo};
use eil::{Address, EilError, U256};
use std::collections::HashMap;

fn token_amount(amount: Amount, min_provider_deposit: Option<U256>) -> TokenAmount {
    TokenAmount {
        token: MultichainToken::new("T".to_string(), HashMap::new()),
        amount,
        min_provider_deposit,
    }
}

fn fixed(amount: u64) -> TokenAmount {
    token_amount(Amount::Fixed(U256::from(amount)), None)
}

fn provider(address: u128, deposits: Vec<u64>, balances: Vec<u64>) -> SolventXlpInfo {
    SolventXlpInfo {
        xlp_entry: XlpEntry {
            l1_xlp_address: Address::from_u128(address + 1000),
            l2_xlp_address: Address::from_u128(address),
            bond: U256::from(0),
        },
        deposits: deposits.into_iter().map(U256::from).collect(),
        balances: balances.into_iter().map(U256::from).collect(),
    }
}

fn policy(factor_micros: u64, include_balance: bool, min_xlps: usize, max_xlps: usize) -> XlpSelectionConfig {
    XlpSelectionConfig {
        deposit_reserve_factor: Fraction::from_micros(factor_micros),
        include_balance,
        min_xlps,
        max_xlps,
        custom_xlp_filter: None,
    }
}

fn addresses(values: &[u128]) -> Vec<Address> {
    values.iter().map(|v| Address::from_u128(*v)).collect()
}

#[test]
fn test_covers_compares_with_the_reserve_factor() {
    let one = Fraction::one();
    assert!(covers(U256::from(100), U256::from(100), one));
    assert!(!covers(U256::from(99), U256::from(100), one));
    let reserve = Fraction::from_micros(1_100_000);
    assert!(covers(U256::from(110), U256::from(100), reserve));
    assert!(!covers(U256::from(109), U256::from(100), reserve));
    // 1.000001 times 1,000,000 is 1,000,001
    let tight = Fraction::from_micros(1_000_001);
    assert!(covers(U256::from(1_000_001), U256::from(1_000_000), tight));
    assert!(!covers(U256::from(1_000_000), U256::from(1_000_000), tight));
    assert!(covers(U256::from(0), U256::from(5), Fraction::from_micros(0)));
}

#[test]
fn test_covers_does_not_overflow() {
    let max = U256 { hi: u128::MAX, lo: u128::MAX };
    let below = U256 { hi: u128::MAX, lo: u128::MAX - 1 };
    assert!(covers(max, max, Fraction::one()));
    assert!(!covers(below, max, Fraction::one()));
    assert!(!covers(max, max, Fraction::from_micros(1_000_001)));
    assert!(!covers(max, max, Fraction::from_micros(u64::MAX)));
    assert!(covers(max, below, Fraction::one()));
}

#[test]
fn test_required_amounts_resolve_runtime_amounts() {
    let var = RuntimeVar::new("x").unwrap();
    let tokens = vec![
        fixed(100),
        token_amount(Amount::Runtime(var.clone()), Some(U256::from(40))),
        token_amount(Amount::Runtime(var), None),
        token_amount(Amount::Fixed(U256::from(7)), Some(U256::from(999))),
    ];
    assert_eq!(
        amounts_required(&tokens),
        vec![U256::from(100), U256::from(40), U256::from(1), U256::from(7)]
    );
}

#[test]
fn test_solvent_xlps_keep_order_and_need_every_token_covered() {
    let candidates = vec![
        provider(5, vec![100, 50], vec![]),
        provider(4, vec![100, 49], vec![]),
        provider(3, vec![100], vec![]),
        provider(2, vec![200, 200], vec![0, 0]),
        provider(1, vec![100, 50, 1], vec![]),
    ];
    let tokens = vec![fixed(100), fixed(50)];
    let kept = get_solvent_xlps(&candidates, &tokens, Fraction::one(), false);
    let kept: Vec<Address> = kept.iter().map(|x| x.xlp_entry.l2_xlp_address).collect();
    assert_eq!(kept, addresses(&[5, 2]));
}

#[test]
fn test_solvent_xlps_with_balance_check() {
    let candidates = vec![
        provider(1, vec![100], vec![100]),
        provider(2, vec![100], vec![99]),
        provider(3, vec![100], vec![]),
        provider(4, vec![99], vec![500]),
    ];
    let tokens = vec![fixed(100)];
    let kept = get_solvent_xlps(&candidates, &tokens, Fraction::one(), true);
    let kept: Vec<Address> = kept.iter().map(|x| x.xlp_entry.l2_xlp_address).collect();
    assert_eq!(kept, addresses(&[1]));
    assert_eq!(get_solvent_xlps(&candidates, &tokens, Fraction::one(), false).len(), 3);
}

#[test]
fn test_sort_addresses_is_ascending() {
    let sorted = sort_addresses(&vec![
        Address { hi: 1, lo: 0 },
        Address::from_u128(9),
        Address::from_u128(u128::MAX),
        Address::from_u128(9),
        Address::zero(),
    ]);
    assert_eq!(
        sorted,
        vec![
            Address::zero(),
            Address::from_u128(9),
            Address::from_u128(9),
            Address::from_u128(u128::MAX),
            Address { hi: 1, lo: 0 },
        ]
    );
    assert!(sort_addresses(&vec![]).is_empty());
}

#[test]
fn test_selection_fails_below_the_minimum() {
    let tokens = vec![fixed(100)];
    let none: Vec<SolventXlpInfo> = vec![];
    assert!(matches!(
        select_xlps(&none, &tokens, &policy(1_000_000, false, 1, 5), 10),
        Err(EilError::NoXlpsFound(10))
    ));
    let insolvent = vec![provider(1, vec![1], vec![])];
    assert!(matches!(
        select_xlps(&insolvent, &tokens, &policy(1_000_000, false, 2, 5), 42),
        Err(EilError::NoXlpsFound(42))
    ));
    let one = vec![provider(1, vec![100], vec![]), provider(2, vec![5], vec![])];
    match select_xlps(&one, &tokens, &policy(1_000_000, false, 2, 5), 10) {
        Err(EilError::InsufficientXlps { found, required, chain_id }) => {
            assert_eq!(found, 1);
            assert_eq!(required, 2);
            assert_eq!(chain_id, 10);
        }
        _ => panic!("Expected InsufficientXlps error"),
    }
    // with no minimum, no provider is no failure
    assert_eq!(select_xlps(&none, &tokens, &policy(1_000_000, false, 0, 5), 10).unwrap(), vec![]);
}

#[test]
fn test_selection_sorts_and_truncates() {
    let tokens = vec![fixed(10)];
    let candidates = vec![
        provider(30, vec![10], vec![]),
        provider(10, vec![10], vec![]),
        provider(40, vec![9], vec![]),
        provider(20, vec![10], vec![]),
        provider(5, vec![10], vec![]),
    ];
    assert_eq!(
        select_xlps(&candidates, &tokens, &policy(1_000_000, false, 1, 3), 10).unwrap(),
        addresses(&[5, 10, 20])
    );
    assert_eq!(
        select_xlps(&candidates, &tokens, &policy(1_000_000, false, 4, 4), 10).unwrap(),
        addresses(&[5, 10, 20, 30])
    );
    assert_eq!(
        select_xlps(&candidates, &tokens, &policy(1_000_000, false, 1, 9), 10).unwrap(),
        addresses(&[5, 10, 20, 30])
    );
    // a maximum below the minimum still truncates
    assert_eq!(
        select_xlps(&candidates, &tokens, &policy(1_000_000, false, 2, 1), 10).unwrap(),
        addresses(&[5])
    );
    let kept = get_solvent_xlps(&candidates, &tokens, Fraction::one(), false);
    assert_eq!(
        select_allowed_xlps(&kept, &policy(1_000_000, false, 1, 2), 10).unwrap(),
        addresses(&[5, 10])
    );
}
