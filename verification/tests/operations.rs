use fund_vault::{
    deposit, execute, instantiate, query_state, send_cw20, send_native, toggle_lock,
    update_owner_withdrawal, update_state, withdraw, Asset, Coin, ContractError, ExecuteMsg,
    InstantiateMsg, Instruction, State,
};

fn addr(s: &str) -> String {
    s.to_string()
}

fn coin(denom: &str, amount: u128) -> Coin {
    Coin { denom: denom.to_string(), amount }
}

fn plain_msg() -> InstantiateMsg {
    InstantiateMsg {
        funder: addr("principal"),
        trader_withdrawal_address: None,
        whitelist: None,
        assets: None,
        commission: None,
    }
}

fn vault() -> State {
    // manager "manager", principal "principal", native + token asset,
    // checkpoint 60, commission 20%
    let mut state = instantiate(addr("manager"), plain_msg());
    state.assets = vec![
        Asset::Native("uluna".to_string()),
        Asset::Token("tok1".to_string()),
    ];
    state.whitelist = vec![addr("partner")];
    state.base_investment = 60;
    state
}

fn snapshot() -> Vec<(Asset, u128)> {
    vec![
        (Asset::Native("uluna".to_string()), 100u128),
        (Asset::Token("tok1".to_string()), 50u128),
    ]
}

#[test]
fn instantiate_fills_defaults() {
    let state = instantiate(addr("manager"), plain_msg());
    assert_eq!(state.trader, "manager");
    assert_eq!(state.trader_withdrawal_address, "manager");
    assert_eq!(state.funder, "principal");
    assert!(state.assets.is_empty());
    assert!(state.whitelist.is_empty());
    assert!(!state.trader_lock);
    assert!(!state.funder_lock);
    assert_eq!(state.base_investment, 0);
    assert_eq!(state.commission, 20);
}

#[test]
fn instantiate_applies_overrides() {
    let msg = InstantiateMsg {
        funder: addr("principal"),
        trader_withdrawal_address: Some(addr("payout")),
        whitelist: Some(vec![addr("partner")]),
        assets: Some(vec![Asset::Native("uluna".to_string())]),
        commission: Some(35),
    };
    let state = instantiate(addr("manager"), msg);
    assert_eq!(state.trader_withdrawal_address, "payout");
    assert_eq!(state.whitelist, vec![addr("partner")]);
    assert_eq!(state.assets.len(), 1);
    assert_eq!(state.commission, 35);
}

#[test]
fn instantiate_ignores_commission_outside_range() {
    let mut msg = plain_msg();
    msg.commission = Some(15);
    assert_eq!(instantiate(addr("manager"), msg).commission, 20);
    let mut msg = plain_msg();
    msg.commission = Some(130);
    assert_eq!(instantiate(addr("manager"), msg).commission, 20);
}

#[test]
fn toggle_lock_flips_own_flag_only() {
    let state = vault();
    let locked = toggle_lock(&state, &addr("principal")).unwrap();
    assert!(locked.funder_lock);
    assert!(!locked.trader_lock);
    let unlocked = toggle_lock(&locked, &addr("principal")).unwrap();
    assert!(!unlocked.funder_lock);
    let manager_side = toggle_lock(&state, &addr("manager")).unwrap();
    assert!(manager_side.trader_lock);
    assert!(!manager_side.funder_lock);
}

#[test]
fn toggle_lock_rejects_strangers() {
    let r = toggle_lock(&vault(), &addr("somebody"));
    match r {
        Err(e) => assert_eq!(e, ContractError::Unauthorized),
        Ok(_) => panic!("expected unauthorized"),
    }
}

#[test]
fn deposit_raises_checkpoint() {
    let state = vault();
    let funded = deposit(&state, &addr("principal"), &vec![coin("uluna", 40)]).unwrap();
    assert_eq!(funded.base_investment, 100);
}

#[test]
fn deposit_rejects_wrong_caller() {
    let r = deposit(&vault(), &addr("manager"), &vec![coin("uluna", 40)]);
    match r {
        Err(e) => assert_eq!(e, ContractError::Unauthorized),
        Ok(_) => panic!("expected unauthorized"),
    }
}

#[test]
fn deposit_rejects_wrong_shape() {
    let state = vault();
    let none = deposit(&state, &addr("principal"), &vec![]);
    let two = deposit(
        &state,
        &addr("principal"),
        &vec![coin("uluna", 40), coin("uusd", 1)],
    );
    let wrong = deposit(&state, &addr("principal"), &vec![coin("uusd", 40)]);
    for r in [none, two, wrong] {
        match r {
            Err(e) => assert_eq!(e, ContractError::NoLunaReceived),
            Ok(_) => panic!("expected a rejected deposit"),
        }
    }
}

#[test]
fn locked_configuration_stays_put() {
    // the Principal locks: the Manager can no longer reconfigure,
    // but can still withdraw
    let state = vault();
    let locked = toggle_lock(&state, &addr("principal")).unwrap();
    let r = update_state(
        &locked,
        &addr("manager"),
        Some(vec![addr("other")]),
        None,
        None,
        None,
        &vec![],
    );
    match r {
        Err(e) => assert_eq!(e, ContractError::Locked),
        Ok(_) => panic!("expected the veto to hold"),
    }
    let w = withdraw(&locked, &addr("manager"), &snapshot(), None);
    assert!(w.is_ok());
}

#[test]
fn update_state_rejects_strangers() {
    let r = update_state(
        &vault(),
        &addr("somebody"),
        None,
        None,
        None,
        None,
        &vec![],
    );
    match r {
        Err(e) => assert_eq!(e, ContractError::Unauthorized),
        Ok(_) => panic!("expected unauthorized"),
    }
}

#[test]
fn update_state_applies_fields() {
    let state = vault();
    let updated = update_state(
        &state,
        &addr("manager"),
        Some(vec![addr("other")]),
        Some(vec![Asset::Native("uusd".to_string())]),
        Some(50),
        None,
        &vec![],
    )
    .unwrap();
    assert_eq!(updated.whitelist, vec![addr("other")]);
    assert_eq!(updated.assets.len(), 1);
    assert_eq!(updated.commission, 50);
}

#[test]
fn update_state_ignores_commission_outside_range() {
    let state = vault();
    let low = update_state(&state, &addr("manager"), None, None, Some(10), None, &vec![]).unwrap();
    assert_eq!(low.commission, 20);
    let high = update_state(&state, &addr("manager"), None, None, Some(120), None, &vec![]).unwrap();
    assert_eq!(high.commission, 20);
}

#[test]
fn principal_reassignment_needs_empty_vault() {
    let state = vault();
    let kept = update_state(
        &state,
        &addr("manager"),
        None,
        None,
        None,
        Some(addr("newprincipal")),
        &snapshot(),
    )
    .unwrap();
    assert_eq!(kept.funder, "principal");
    let empty: Vec<(Asset, u128)> = vec![
        (Asset::Native("uluna".to_string()), 0u128),
        (Asset::Token("tok1".to_string()), 0u128),
    ];
    let moved = update_state(
        &state,
        &addr("manager"),
        None,
        None,
        None,
        Some(addr("newprincipal")),
        &empty,
    )
    .unwrap();
    assert_eq!(moved.funder, "newprincipal");
}

#[test]
fn update_owner_withdrawal_is_manager_only() {
    let state = vault();
    let moved = update_owner_withdrawal(&state, &addr("manager"), addr("payout")).unwrap();
    assert_eq!(moved.trader_withdrawal_address, "payout");
    let r = update_owner_withdrawal(&state, &addr("principal"), addr("payout"));
    match r {
        Err(e) => assert_eq!(e, ContractError::Unauthorized),
        Ok(_) => panic!("expected unauthorized"),
    }
}

#[test]
fn send_native_builds_plain_send() {
    let state = vault();
    let instr = send_native(
        &state,
        &addr("manager"),
        addr("partner"),
        Some(vec![coin("uluna", 7)]),
        None,
    )
    .unwrap();
    match instr {
        Instruction::NativeSend { to, coins } => {
            assert_eq!(to, "partner");
            assert_eq!(coins.len(), 1);
            assert_eq!(coins[0].denom, "uluna");
            assert_eq!(coins[0].amount, 7);
        },
        _ => panic!("expected a native send"),
    }
}

#[test]
fn send_native_with_payload_invokes_contract() {
    let state = vault();
    let instr = send_native(
        &state,
        &addr("manager"),
        addr("partner"),
        None,
        Some(vec![1, 2, 3]),
    )
    .unwrap();
    match instr {
        Instruction::NativeExec { contract, coins, payload } => {
            assert_eq!(contract, "partner");
            assert!(coins.is_empty());
            assert_eq!(payload, vec![1, 2, 3]);
        },
        _ => panic!("expected a contract invocation"),
    }
}

#[test]
fn send_native_enforces_whitelist() {
    let r = send_native(&vault(), &addr("manager"), addr("stranger"), None, None);
    match r {
        Err(e) => assert_eq!(e, ContractError::NotWhitelisted),
        Ok(_) => panic!("expected whitelist enforcement"),
    }
}

#[test]
fn send_native_is_manager_only() {
    let r = send_native(&vault(), &addr("principal"), addr("partner"), None, None);
    match r {
        Err(e) => assert_eq!(e, ContractError::Unauthorized),
        Ok(_) => panic!("expected unauthorized"),
    }
}

#[test]
fn send_cw20_builds_transfer_and_send() {
    let state = vault();
    let plain = send_cw20(
        &state,
        &addr("manager"),
        addr("partner"),
        addr("tok1"),
        9,
        None,
    )
    .unwrap();
    match plain {
        Instruction::TokenTransfer { token, to, amount } => {
            assert_eq!(token, "tok1");
            assert_eq!(to, "partner");
            assert_eq!(amount, 9);
        },
        _ => panic!("expected a token transfer"),
    }
    let with_payload = send_cw20(
        &state,
        &addr("manager"),
        addr("partner"),
        addr("tok1"),
        9,
        Some(vec![4, 5]),
    )
    .unwrap();
    match with_payload {
        Instruction::TokenSend { token, to, amount, payload } => {
            assert_eq!(token, "tok1");
            assert_eq!(to, "partner");
            assert_eq!(amount, 9);
            assert_eq!(payload, vec![4, 5]);
        },
        _ => panic!("expected a token send"),
    }
}

#[test]
fn send_cw20_enforces_whitelist() {
    let r = send_cw20(
        &vault(),
        &addr("manager"),
        addr("stranger"),
        addr("tok1"),
        9,
        None,
    );
    match r {
        Err(e) => assert_eq!(e, ContractError::NotWhitelisted),
        Ok(_) => panic!("expected whitelist enforcement"),
    }
}

#[test]
fn withdraw_rejects_strangers() {
    let r = withdraw(&vault(), &addr("somebody"), &snapshot(), None);
    match r {
        Err(e) => assert_eq!(e, ContractError::Unauthorized),
        Ok(_) => panic!("expected unauthorized"),
    }
}

#[test]
fn withdraw_distributes_and_resets_checkpoint() {
    // native 100 + token 50, checkpoint 60, commission 20%:
    // token leg first, then the two native batches
    let state = vault();
    let (after, instrs) = withdraw(&state, &addr("principal"), &snapshot(), None).unwrap();
    assert_eq!(after.base_investment, 0);
    assert_eq!(instrs.len(), 3);
    match &instrs[0] {
        Instruction::TokenTransfer { token, to, amount } => {
            assert_eq!(token, "tok1");
            assert_eq!(to, "principal");
            assert_eq!(*amount, 50);
        },
        _ => panic!("expected the token leg first"),
    }
    match &instrs[1] {
        Instruction::NativeSend { to, coins } => {
            assert_eq!(to, "manager");
            assert_eq!(coins.len(), 1);
            assert_eq!(coins[0].denom, "uluna");
            assert_eq!(coins[0].amount, 18);
        },
        _ => panic!("expected the Manager's native batch second"),
    }
    match &instrs[2] {
        Instruction::NativeSend { to, coins } => {
            assert_eq!(to, "principal");
            assert_eq!(coins.len(), 1);
            assert_eq!(coins[0].denom, "uluna");
            assert_eq!(coins[0].amount, 82);
        },
        _ => panic!("expected the Principal's native batch last"),
    }
}

#[test]
fn withdraw_twice_moves_nothing_more() {
    let state = vault();
    let (after, _) = withdraw(&state, &addr("principal"), &snapshot(), None).unwrap();
    assert_eq!(after.base_investment, 0);
    let drained: Vec<(Asset, u128)> = vec![
        (Asset::Native("uluna".to_string()), 0u128),
        (Asset::Token("tok1".to_string()), 0u128),
    ];
    let (again, instrs) = withdraw(&after, &addr("principal"), &drained, None).unwrap();
    assert_eq!(again.base_investment, 0);
    assert!(instrs.is_empty());
}

#[test]
fn withdrawal_address_caller_gets_commission_leg() {
    let mut state = vault();
    state.trader_withdrawal_address = addr("payout");
    let (after, instrs) = withdraw(&state, &addr("payout"), &snapshot(), None).unwrap();
    assert_eq!(instrs.len(), 1);
    match &instrs[0] {
        Instruction::NativeSend { to, coins } => {
            assert_eq!(to, "payout");
            assert_eq!(coins[0].amount, 18);
        },
        _ => panic!("expected only the Manager's batch"),
    }
    assert_eq!(after.base_investment, 132);
}

#[test]
fn execute_dispatches_withdraw() {
    let state = vault();
    let (after, instrs) = execute(
        &state,
        &addr("principal"),
        &vec![],
        &snapshot(),
        ExecuteMsg::Withdraw { amount: Some(30) },
    )
    .unwrap();
    assert_eq!(after.base_investment, 102);
    assert_eq!(instrs.len(), 2);
}

#[test]
fn execute_dispatches_deposit_and_toggle() {
    let state = vault();
    let (funded, instrs) = execute(
        &state,
        &addr("principal"),
        &vec![coin("uluna", 40)],
        &vec![],
        ExecuteMsg::Deposit {},
    )
    .unwrap();
    assert!(instrs.is_empty());
    assert_eq!(funded.base_investment, 100);
    let (locked, instrs) = execute(
        &funded,
        &addr("principal"),
        &vec![],
        &vec![],
        ExecuteMsg::ToggleLock {},
    )
    .unwrap();
    assert!(instrs.is_empty());
    assert!(locked.funder_lock);
}

#[test]
fn deposit_then_withdraw_at_zero_rate_returns_deposit() {
    // the engine-level round trip: fund an empty vault, then run the
    // allocator with a zero rate; the Principal gets the deposit back
    let mut state = instantiate(addr("manager"), plain_msg());
    state.assets = vec![Asset::Native("uluna".to_string())];
    let funded = deposit(&state, &addr("principal"), &vec![coin("uluna", 70)]).unwrap();
    assert_eq!(funded.base_investment, 70);
    let bals = vec![(Asset::Native("uluna".to_string()), 70u128)];
    let a = fund_vault::allocate(&bals, funded.base_investment, 0, None, true).unwrap();
    assert_eq!(a.new_base_investment, 0);
    assert_eq!(a.transfers.len(), 1);
    let (role, _, amount) = &a.transfers[0];
    assert_eq!(*role, fund_vault::Role::Principal);
    assert_eq!(*amount, 70);
}

#[test]
fn query_state_reports_the_record() {
    let state = vault();
    let response = query_state(&state);
    assert_eq!(response.state.trader, state.trader);
    assert_eq!(response.state.funder, state.funder);
    assert_eq!(response.state.base_investment, state.base_investment);
    assert_eq!(response.state.commission, state.commission);
    assert_eq!(response.state.whitelist, state.whitelist);
}
