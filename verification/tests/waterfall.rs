use fund_vault::{allocate, Asset, ContractError, Role};

fn native(denom: &str) -> Asset {
    Asset::Native(denom.to_string())
}

fn token(addr: &str) -> Asset {
    Asset::Token(addr.to_string())
}

fn amounts(transfers: &[(Role, Asset, u128)]) -> Vec<(Role, String, u128)> {
    transfers
        .iter()
        .map(|(role, asset, amount)| {
            let id = match asset {
                Asset::Native(denom) => format!("native:{}", denom),
                Asset::Token(addr) => format!("token:{}", addr),
            };
            (*role, id, *amount)
        })
        .collect()
}

#[test]
fn unbounded_withdrawal_scenario() {
    // assets: native 100 + token 50, checkpoint 60, commission 20%
    // profit 90, commission due 18, principal sweeps the rest
    let bals = vec![(native("uluna"), 100u128), (token("tok1"), 50u128)];
    let a = allocate(&bals, 60, 20, None, true).unwrap();
    assert_eq!(a.new_base_investment, 0);
    assert_eq!(
        amounts(&a.transfers),
        vec![
            (Role::Manager, "native:uluna".to_string(), 18),
            (Role::Principal, "native:uluna".to_string(), 82),
            (Role::Principal, "token:tok1".to_string(), 50),
        ]
    );
}

#[test]
fn capped_withdrawal_scenario() {
    // same vault, but the Principal asks for 30: the token asset is
    // never touched and the checkpoint keeps the undistributed rest
    let bals = vec![(native("uluna"), 100u128), (token("tok1"), 50u128)];
    let a = allocate(&bals, 60, 20, Some(30), true).unwrap();
    assert_eq!(a.new_base_investment, 102);
    assert_eq!(
        amounts(&a.transfers),
        vec![
            (Role::Manager, "native:uluna".to_string(), 18),
            (Role::Principal, "native:uluna".to_string(), 30),
        ]
    );
}

#[test]
fn manager_caller_runs_commission_leg_only() {
    let bals = vec![(native("uluna"), 100u128), (token("tok1"), 50u128)];
    let a = allocate(&bals, 60, 20, None, false).unwrap();
    assert_eq!(
        amounts(&a.transfers),
        vec![(Role::Manager, "native:uluna".to_string(), 18)]
    );
    // total 150, commission due 18, nothing withdrawn by the Principal
    assert_eq!(a.new_base_investment, 132);
}

#[test]
fn zero_commission_round_trip() {
    // checkpoint equals holdings and the rate is zero: the Principal
    // gets everything back and the checkpoint resets
    let bals = vec![(native("uluna"), 100u128)];
    let a = allocate(&bals, 100, 0, None, true).unwrap();
    assert_eq!(a.new_base_investment, 0);
    assert_eq!(
        amounts(&a.transfers),
        vec![(Role::Principal, "native:uluna".to_string(), 100)]
    );
}

#[test]
fn checkpoint_above_holdings_fails_fast() {
    let bals = vec![(native("uluna"), 50u128)];
    let r = allocate(&bals, 60, 20, None, true);
    match r {
        Err(e) => assert_eq!(e, ContractError::AccountingUnderflow),
        Ok(_) => panic!("expected an accounting underflow"),
    }
}

#[test]
fn commission_spans_assets() {
    // the whole pool is profit at a 100% rate: the Manager drains both
    // assets and the Principal gets nothing
    let bals = vec![(native("aaa"), 10u128), (native("bbb"), 20u128)];
    let a = allocate(&bals, 0, 100, None, true).unwrap();
    assert_eq!(a.new_base_investment, 0);
    assert_eq!(
        amounts(&a.transfers),
        vec![
            (Role::Manager, "native:aaa".to_string(), 10),
            (Role::Manager, "native:bbb".to_string(), 20),
        ]
    );
}

#[test]
fn trailing_assets_left_untouched() {
    // both claims are satisfied on the first asset; the others are
    // left alone and stay in the checkpoint
    let bals = vec![
        (native("aaa"), 10u128),
        (native("bbb"), 20u128),
        (native("ccc"), 5u128),
    ];
    let a = allocate(&bals, 0, 20, Some(3), true).unwrap();
    // profit 35, commission due 7, principal capped at 3
    assert_eq!(a.new_base_investment, 25);
    assert_eq!(
        amounts(&a.transfers),
        vec![
            (Role::Manager, "native:aaa".to_string(), 7),
            (Role::Principal, "native:aaa".to_string(), 3),
        ]
    );
}

#[test]
fn commission_truncates() {
    // 99 * 20 / 100 = 19.8, truncated to 19
    let bals = vec![(native("uluna"), 99u128)];
    let a = allocate(&bals, 0, 20, None, false).unwrap();
    assert_eq!(
        amounts(&a.transfers),
        vec![(Role::Manager, "native:uluna".to_string(), 19)]
    );
    assert_eq!(a.new_base_investment, 80);
}

#[test]
fn exhausted_assets_emit_no_transfer() {
    let bals = vec![(native("aaa"), 0u128), (native("bbb"), 50u128)];
    let a = allocate(&bals, 0, 20, None, true).unwrap();
    assert_eq!(
        amounts(&a.transfers),
        vec![
            (Role::Manager, "native:bbb".to_string(), 10),
            (Role::Principal, "native:bbb".to_string(), 40),
        ]
    );
    assert_eq!(a.new_base_investment, 0);
}

#[test]
fn empty_snapshot_with_clean_checkpoint_moves_nothing() {
    let bals: Vec<(Asset, u128)> = vec![];
    let a = allocate(&bals, 0, 20, None, true).unwrap();
    assert!(a.transfers.is_empty());
    assert_eq!(a.new_base_investment, 0);
}

#[test]
fn empty_snapshot_with_stale_checkpoint_fails_fast() {
    let bals: Vec<(Asset, u128)> = vec![];
    let r = allocate(&bals, 60, 20, None, true);
    match r {
        Err(e) => assert_eq!(e, ContractError::AccountingUnderflow),
        Ok(_) => panic!("expected an accounting underflow"),
    }
}

#[test]
fn commission_at_maximal_balance() {
    // the commission computation must not widen past 128 bits
    let bals = vec![(native("uluna"), u128::MAX)];
    let a = allocate(&bals, 0, 20, None, false).unwrap();
    assert_eq!(
        amounts(&a.transfers),
        vec![(
            Role::Manager,
            "native:uluna".to_string(),
            68056473384187692692674921486353642291
        )]
    );
}

#[test]
fn request_beyond_holdings_gets_what_is_there() {
    // the Principal asks for more than remains: the checkpoint reflects
    // what was actually paid, not the request
    let bals = vec![(native("uluna"), 100u128)];
    let a = allocate(&bals, 100, 0, Some(500), true).unwrap();
    assert_eq!(
        amounts(&a.transfers),
        vec![(Role::Principal, "native:uluna".to_string(), 100)]
    );
    assert_eq!(a.new_base_investment, 0);
}
