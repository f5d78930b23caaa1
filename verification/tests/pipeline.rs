use ore_miner::accounts::{parse_bus, parse_treasury};
use ore_miner::errors::MinerError;
use ore_miner::submit::{step, SubmitAction, SubmitEvent, SubmitState};
use ore_miner::txbuild::{
    build_claim_transaction, build_transaction, encode_kind, resolve_claim_amount,
    try_build_transaction, AccountSpec, TxKind,
};
use solana_sdk::signature::Keypair;
use solana_sdk::signer::Signer;
use solana_sdk::transaction::Transaction;

const TOKEN_BASE_UNITS: u64 = 1_000_000_000;

fn test_accounts() -> Vec<AccountSpec> {
    vec![
        AccountSpec { key: [1u8; 32], is_signer: false, is_writable: true },
        AccountSpec { key: [2u8; 32], is_signer: false, is_writable: false },
    ]
}

#[test]
fn encode_mine_kind_exact_bytes() {
    let kind = TxKind::Mine { nonce: 0x0102030405060708, proof_hash: [0xaa; 32] };
    let data = encode_kind(&kind);
    assert_eq!(data.len(), 41);
    assert_eq!(data[0], 0);
    assert_eq!(&data[1..9], &[0x08, 0x07, 0x06, 0x05, 0x04, 0x03, 0x02, 0x01]);
    assert_eq!(&data[9..41], &[0xaa; 32]);
}

#[test]
fn encode_claim_kind_exact_bytes() {
    let kind = TxKind::Claim { amount: 12_500_000_000 };
    let data = encode_kind(&kind);
    assert_eq!(data.len(), 9);
    assert_eq!(data[0], 1);
    assert_eq!(&data[1..9], &12_500_000_000u64.to_le_bytes());
}

#[test]
fn resolve_claim_none_takes_full_balance() {
    // 12.5 tokens of claimable rewards, claimed without an explicit amount.
    let tokens: f64 = 12.5;
    let claimable = (tokens * TOKEN_BASE_UNITS as f64) as u64;
    assert_eq!(resolve_claim_amount(None, claimable), Ok(claimable));
    assert_eq!(claimable, 12_500_000_000);
}

#[test]
fn resolve_claim_within_balance_is_kept() {
    assert_eq!(resolve_claim_amount(Some(5), 10), Ok(5));
    assert_eq!(resolve_claim_amount(Some(10), 10), Ok(10));
}

#[test]
fn resolve_claim_above_balance_is_insufficient() {
    assert_eq!(resolve_claim_amount(Some(11), 10), Err(MinerError::InsufficientBalance));
}

#[test]
fn claim_transaction_requests_exact_amount() {
    // Claim with no explicit amount while 12.5 tokens are claimable: the
    // built transaction's program instruction asks for exactly 12.5 tokens.
    let claimable: u64 = 12_500_000_000;
    let accounts = test_accounts();
    let bytes = build_claim_transaction(
        None,
        claimable,
        500,
        200_000,
        &[3u8; 32],
        &accounts,
        &[4u8; 32],
        &[5u8; 32],
    )
    .unwrap();
    let tx: Transaction = bincode::deserialize(&bytes).unwrap();
    let program_ix = &tx.message.instructions[2];
    let expected = encode_kind(&TxKind::Claim { amount: claimable });
    assert_eq!(program_ix.data, expected);
}

#[test]
fn claim_transaction_above_balance_is_refused() {
    let accounts = test_accounts();
    let r = build_claim_transaction(
        Some(13_000_000_000),
        12_500_000_000,
        500,
        200_000,
        &[3u8; 32],
        &accounts,
        &[4u8; 32],
        &[5u8; 32],
    );
    assert_eq!(r.unwrap_err(), MinerError::InsufficientBalance);
}

#[test]
fn build_is_deterministic() {
    // Identical kind, fee, limit, accounts, blockhash and signer give a
    // byte-identical signed transaction.
    let kind = TxKind::Mine { nonce: 7, proof_hash: [9u8; 32] };
    let accounts = test_accounts();
    let a = build_transaction(&kind, 100, 150_000, &[3u8; 32], &accounts, &[4u8; 32], &[5u8; 32]);
    let b = build_transaction(&kind, 100, 150_000, &[3u8; 32], &accounts, &[4u8; 32], &[5u8; 32]);
    assert_eq!(a, b);
}

#[test]
fn build_with_other_blockhash_differs() {
    let kind = TxKind::Mine { nonce: 7, proof_hash: [9u8; 32] };
    let accounts = test_accounts();
    let a = build_transaction(&kind, 100, 150_000, &[3u8; 32], &accounts, &[4u8; 32], &[5u8; 32]);
    let b = build_transaction(&kind, 100, 150_000, &[3u8; 32], &accounts, &[6u8; 32], &[5u8; 32]);
    assert_ne!(a, b);
    let ta: Transaction = bincode::deserialize(&a).unwrap();
    let tb: Transaction = bincode::deserialize(&b).unwrap();
    // The payload instructions are unchanged; only the blockhash-dependent
    // parts moved.
    assert_eq!(ta.message.instructions, tb.message.instructions);
    assert_ne!(ta.message.recent_blockhash, tb.message.recent_blockhash);
}

#[test]
fn built_transaction_layout_and_signature() {
    let kind = TxKind::Mine { nonce: 7, proof_hash: [9u8; 32] };
    let accounts = test_accounts();
    let bytes =
        build_transaction(&kind, 100, 150_000, &[3u8; 32], &accounts, &[4u8; 32], &[5u8; 32]);
    let tx: Transaction = bincode::deserialize(&bytes).unwrap();
    assert_eq!(tx.message.instructions.len(), 3);
    // Compute-budget limit, then priority fee, then the program instruction.
    assert_eq!(tx.message.instructions[0].data[0], 2);
    assert_eq!(&tx.message.instructions[0].data[1..5], &150_000u32.to_le_bytes());
    assert_eq!(tx.message.instructions[1].data[0], 3);
    assert_eq!(&tx.message.instructions[1].data[1..9], &100u64.to_le_bytes());
    assert_eq!(tx.message.instructions[2].data, encode_kind(&kind));
    assert_eq!(
        tx.message.recent_blockhash,
        solana_sdk::hash::Hash::new_from_array([4u8; 32])
    );
    assert!(tx.verify().is_ok());
}

#[test]
fn try_build_accepts_payer_signed_accounts() {
    let secret = [5u8; 32];
    let payer = Keypair::new_from_array(secret).pubkey().to_bytes();
    let accounts = vec![
        AccountSpec { key: payer, is_signer: true, is_writable: true },
        AccountSpec { key: [2u8; 32], is_signer: false, is_writable: true },
    ];
    let kind = TxKind::Mine { nonce: 1, proof_hash: [0u8; 32] };
    let bytes =
        try_build_transaction(&kind, 10, 100_000, &[3u8; 32], &accounts, &[4u8; 32], &secret)
            .unwrap();
    let tx: Transaction = bincode::deserialize(&bytes).unwrap();
    assert!(tx.verify().is_ok());
}

#[test]
fn try_build_refuses_foreign_signer() {
    // An account marked as a signer that is not the fee payer would need a
    // signature nobody can give: refused before anything is built.
    let accounts = vec![AccountSpec { key: [9u8; 32], is_signer: true, is_writable: true }];
    let kind = TxKind::Mine { nonce: 1, proof_hash: [0u8; 32] };
    let r = try_build_transaction(&kind, 10, 100_000, &[3u8; 32], &accounts, &[4u8; 32], &[5u8; 32]);
    assert_eq!(r.unwrap_err(), MinerError::InvalidConfig);
}

#[test]
fn try_build_refuses_oversized_account_list() {
    let accounts =
        vec![AccountSpec { key: [1u8; 32], is_signer: false, is_writable: false }; 201];
    let kind = TxKind::Claim { amount: 1 };
    let r = try_build_transaction(&kind, 10, 100_000, &[3u8; 32], &accounts, &[4u8; 32], &[5u8; 32]);
    assert_eq!(r.unwrap_err(), MinerError::InvalidConfig);
}

#[test]
fn claim_with_foreign_signer_is_invalid_config() {
    // The account check comes first, even when the amount is also fine.
    let accounts = vec![AccountSpec { key: [9u8; 32], is_signer: true, is_writable: true }];
    let r = build_claim_transaction(
        None,
        1_000,
        10,
        100_000,
        &[3u8; 32],
        &accounts,
        &[4u8; 32],
        &[5u8; 32],
    );
    assert_eq!(r.unwrap_err(), MinerError::InvalidConfig);
}

#[test]
fn expired_rebuilds_then_gives_up() {
    // Three pending polls, then expiry: with a budget of one retry, the
    // protocol rebuilds with a fresh blockhash once, and a second expiry
    // ends it.
    let max_retries = 1;
    let mut s = SubmitState::Building { retries_used: 0 };
    let (s1, a1) = step(s, SubmitEvent::SendAccepted, max_retries);
    assert_eq!(s1, SubmitState::Sent { retries_used: 0 });
    assert_eq!(a1, SubmitAction::Poll);
    s = s1;
    for _ in 0..3 {
        let (sn, an) = step(s, SubmitEvent::PollPending, max_retries);
        assert_eq!(sn, SubmitState::Sent { retries_used: 0 });
        assert_eq!(an, SubmitAction::Poll);
        s = sn;
    }
    let (s2, a2) = step(s, SubmitEvent::PollExpired, max_retries);
    assert_eq!(s2, SubmitState::Building { retries_used: 1 });
    assert_eq!(a2, SubmitAction::Rebuild);
    let (s3, a3) = step(s2, SubmitEvent::SendAccepted, max_retries);
    assert_eq!(s3, SubmitState::Sent { retries_used: 1 });
    assert_eq!(a3, SubmitAction::Poll);
    let (s4, a4) = step(s3, SubmitEvent::PollExpired, max_retries);
    assert_eq!(s4, SubmitState::Failed { reason: MinerError::Expired });
    assert_eq!(a4, SubmitAction::Stop);
}

#[test]
fn rejected_is_never_retried() {
    // A definitive rejection ends the protocol at once, with retries to
    // spare.
    let (s, a) = step(
        SubmitState::Sent { retries_used: 0 },
        SubmitEvent::PollRejected,
        5,
    );
    assert_eq!(s, SubmitState::Failed { reason: MinerError::Rejected });
    assert_eq!(a, SubmitAction::Stop);
    let (s2, a2) = step(
        SubmitState::Building { retries_used: 0 },
        SubmitEvent::SendRejected,
        5,
    );
    assert_eq!(s2, SubmitState::Failed { reason: MinerError::Rejected });
    assert_eq!(a2, SubmitAction::Stop);
}

#[test]
fn network_failures_retry_until_budget_spent() {
    let (s, a) = step(
        SubmitState::Sent { retries_used: 0 },
        SubmitEvent::NetworkFailure,
        2,
    );
    assert_eq!(s, SubmitState::Sent { retries_used: 1 });
    assert_eq!(a, SubmitAction::Poll);
    let (s2, a2) = step(
        SubmitState::Sent { retries_used: 2 },
        SubmitEvent::NetworkFailure,
        2,
    );
    assert_eq!(s2, SubmitState::Failed { reason: MinerError::NetworkError });
    assert_eq!(a2, SubmitAction::Stop);
}

#[test]
fn terminal_states_stay_put() {
    let (s, a) = step(SubmitState::Confirmed, SubmitEvent::PollPending, 3);
    assert_eq!(s, SubmitState::Confirmed);
    assert_eq!(a, SubmitAction::Stop);
    let failed = SubmitState::Failed { reason: MinerError::Rejected };
    let (s2, a2) = step(failed, SubmitEvent::SendAccepted, 3);
    assert_eq!(s2, failed);
    assert_eq!(a2, SubmitAction::Stop);
}

#[test]
fn parse_bus_reads_fields() {
    let mut data = vec![0u8; 24];
    data[8..16].copy_from_slice(&3u64.to_le_bytes());
    data[16..24].copy_from_slice(&987_654_321u64.to_le_bytes());
    let bus = parse_bus(&data).unwrap();
    assert_eq!(bus.id, 3);
    assert_eq!(bus.rewards, 987_654_321);
}

#[test]
fn parse_bus_short_data_is_malformed() {
    let data = vec![0u8; 23];
    assert_eq!(parse_bus(&data).unwrap_err(), MinerError::InvalidConfig);
}

#[test]
fn parse_treasury_reads_fields() {
    let mut data = vec![0u8; 96];
    for i in 8..40 {
        data[i] = 0x11;
    }
    for i in 40..72 {
        data[i] = 0x22;
    }
    data[72..80].copy_from_slice(&111u64.to_le_bytes());
    data[80..88].copy_from_slice(&222u64.to_le_bytes());
    data[88..96].copy_from_slice(&333u64.to_le_bytes());
    let t = parse_treasury(&data).unwrap();
    assert_eq!(t.admin, vec![0x11u8; 32]);
    assert_eq!(t.difficulty, vec![0x22u8; 32]);
    assert_eq!(t.last_reset_at, 111);
    assert_eq!(t.reward_rate, 222);
    assert_eq!(t.total_claimed_rewards, 333);
}

#[test]
fn parse_treasury_short_data_is_malformed() {
    let data = vec![0u8; 95];
    assert_eq!(parse_treasury(&data).unwrap_err(), MinerError::InvalidConfig);
}
