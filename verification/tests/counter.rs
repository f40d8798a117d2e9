use journii::account::{
    decrement, increment, initialize, BaseAccount, Decrement, ErrorCode, Increment, Initialize,
};
use journii::address::derive_base_account_address;
use journii::identity::{program_id, Pubkey};
use journii::ledger::{AuthorityPolicy, HostError, Ledger, TxError};

fn user(b: u8) -> Pubkey {
    Pubkey { bytes: [b; 32] }
}

#[test]
fn scenario_a_initialize_seeds_the_record() {
    let u = user(1);
    let mut ledger = Ledger::new();
    let (addr, _bump) = ledger
        .run_initialize(&u, 100, 10, &program_id())
        .unwrap();
    let record = ledger.get(&addr).unwrap();
    assert_eq!(record.count, 0);
    assert!(record.authority == u);
}

#[test]
fn scenario_b_three_increments_count_one_two_three() {
    let u = user(2);
    let mut ledger = Ledger::new();
    let (addr, _) = ledger
        .run_initialize(&u, 100, 10, &program_id())
        .unwrap();
    for expected in 1..=3u64 {
        let r = ledger.run_increment(&addr, &u, AuthorityPolicy::Open);
        assert_eq!(r, Ok(()));
        assert_eq!(ledger.get(&addr).unwrap().count, expected);
    }
}

#[test]
fn scenario_c_four_decrements_from_three() {
    let u = user(3);
    let mut ledger = Ledger::new();
    let (addr, _) = ledger
        .run_initialize(&u, 100, 10, &program_id())
        .unwrap();
    for _ in 0..3 {
        ledger.run_increment(&addr, &u, AuthorityPolicy::Open).unwrap();
    }
    for expected in [2u64, 1, 0] {
        let r = ledger.run_decrement(&addr, &u, AuthorityPolicy::Open);
        assert_eq!(r, Ok(()));
        assert_eq!(ledger.get(&addr).unwrap().count, expected);
    }
    let fourth = ledger.run_decrement(&addr, &u, AuthorityPolicy::Open);
    assert_eq!(fourth, Err(TxError::Program(ErrorCode::Underflow)));
    assert_eq!(ledger.get(&addr).unwrap().count, 0);
}

#[test]
fn underflow_guard_leaves_count_at_zero() {
    let u = user(4);
    let mut ctx = Decrement {
        base_account: BaseAccount { count: 0, authority: u },
    };
    let r = decrement(&mut ctx);
    assert_eq!(r, Err(ErrorCode::Underflow));
    assert_eq!(ctx.base_account.count, 0);
    assert!(ctx.base_account.authority == u);
}

#[test]
fn monotonic_round_trip_returns_to_zero() {
    let u = user(5);
    let mut init = Initialize {
        base_account: BaseAccount { count: 77, authority: user(9) },
        user: u,
    };
    initialize(&mut init).unwrap();
    assert_eq!(init.base_account.count, 0);

    let mut inc = Increment { base_account: init.base_account };
    let mut applied: i64 = 0;
    for _ in 0..3 {
        increment(&mut inc).unwrap();
        applied += 1;
        assert_eq!(inc.base_account.count as i64, applied);
    }
    let mut dec = Decrement { base_account: inc.base_account };
    for _ in 0..3 {
        decrement(&mut dec).unwrap();
        applied -= 1;
        assert_eq!(dec.base_account.count as i64, applied);
    }
    assert_eq!(dec.base_account.count, 0);
    assert!(dec.base_account.authority == u);
}

#[test]
fn initialize_twice_fails_and_keeps_first_record() {
    let u = user(6);
    let mut ledger = Ledger::new();
    let (addr, _) = ledger
        .run_initialize(&u, 100, 10, &program_id())
        .unwrap();
    ledger.run_increment(&addr, &u, AuthorityPolicy::Open).unwrap();

    let again = ledger.run_initialize(&u, 100, 10, &program_id());
    assert_eq!(again, Err(TxError::Host(HostError::AccountAlreadyInUse)));
    let record = ledger.get(&addr).unwrap();
    assert_eq!(record.count, 1);
    assert!(record.authority == u);
}

#[test]
fn derivation_is_deterministic_per_identity() {
    let u = user(7);
    let pid = program_id();
    let first = derive_base_account_address(&u, &pid).unwrap();
    let second = derive_base_account_address(&u, &pid).unwrap();
    assert!(first.0 == second.0);
    assert_eq!(first.1, second.1);

    let other = derive_base_account_address(&user(8), &pid).unwrap();
    assert!(!(first.0 == other.0));
}

#[test]
fn derived_address_matches_host_derivation() {
    let u = user(7);
    let pid = program_id();
    let got = derive_base_account_address(&u, &pid).unwrap();
    let host_pid = solana_pubkey::Pubkey::new_from_array(pid.bytes);
    let expected =
        solana_pubkey::Pubkey::try_find_program_address(&[b"base_account", &u.bytes], &host_pid)
            .unwrap();
    assert_eq!(got.0.bytes, expected.0.to_bytes());
    assert_eq!(got.1, expected.1);
}

#[test]
fn insufficient_funds_is_rejected_and_rolled_back() {
    let u = user(10);
    let mut ledger = Ledger::new();
    let r = ledger.run_initialize(&u, 3, 10, &program_id());
    assert_eq!(r, Err(TxError::Host(HostError::InsufficientFunds)));
    let addr = derive_base_account_address(&u, &program_id()).unwrap().0;
    assert!(ledger.get(&addr).is_none());
}

#[test]
fn missing_account_is_rejected() {
    let u = user(11);
    let mut ledger = Ledger::new();
    let addr = user(12);
    assert_eq!(
        ledger.run_increment(&addr, &u, AuthorityPolicy::Open),
        Err(TxError::Host(HostError::AccountNotFound))
    );
    assert_eq!(
        ledger.run_decrement(&addr, &u, AuthorityPolicy::Open),
        Err(TxError::Host(HostError::AccountNotFound))
    );
}

#[test]
fn authority_policy_gates_mutation() {
    let u = user(13);
    let stranger = user(14);
    let mut ledger = Ledger::new();
    let (addr, _) = ledger
        .run_initialize(&u, 100, 10, &program_id())
        .unwrap();

    let refused = ledger.run_increment(&addr, &stranger, AuthorityPolicy::AuthorityOnly);
    assert_eq!(refused, Err(TxError::Host(HostError::MissingRequiredSignature)));
    assert_eq!(ledger.get(&addr).unwrap().count, 0);

    let allowed = ledger.run_increment(&addr, &u, AuthorityPolicy::AuthorityOnly);
    assert_eq!(allowed, Ok(()));
    assert_eq!(ledger.get(&addr).unwrap().count, 1);

    let refused_dec = ledger.run_decrement(&addr, &stranger, AuthorityPolicy::AuthorityOnly);
    assert_eq!(refused_dec, Err(TxError::Host(HostError::MissingRequiredSignature)));
    assert_eq!(ledger.get(&addr).unwrap().count, 1);
}

#[test]
fn record_space_covers_tag_and_fields() {
    assert_eq!(journii::account::RECORD_SPACE, 48);
}

#[test]
fn underflow_error_code_and_message() {
    let e = ErrorCode::Underflow;
    assert_eq!(e.code(), 6000);
    assert_eq!(e.message(), "Underflow error");
}

#[test]
fn program_identity_matches_declared_base58_form() {
    let declared =
        solana_pubkey::Pubkey::from_str_const("Fg6PaFpoGXkYsidMpWTK6W2BeZ7FEfcYkg476zPFsLnS");
    assert_eq!(program_id().bytes, declared.to_bytes());
}
