use moon_wallet::bridge::VerificationInstruction;
use moon_wallet::errors::WalletError;
use moon_wallet::state::{ActionParams, LedgerAccount, MultiSigWallet, ProposalStatus};
use sha2::Digest;

const OWNER_KEY: [u8; 33] = [7u8; 33];
const NOW: i64 = 1_700_000_000;

fn tag(key: &[u8]) -> String {
    let d = sha2::Sha256::digest(key);
    format!("{:02x}{:02x}{:02x}", d[0], d[1], d[2])
}

fn secp_instruction(key: &[u8]) -> VerificationInstruction {
    let mut data = vec![0u8; 16];
    data[0] = 1;
    data[6] = 16;
    data.extend_from_slice(key);
    VerificationInstruction {
        program_id: "Secp256r1SigVerify1111111111111111111111111".to_string(),
        data,
    }
}

fn approve_msg(pid: u64, gid: u64, ts: i64, key: &[u8]) -> String {
    format!("approve:proposal_{pid},guardian_{gid},timestamp:{ts},pubkey:{}", tag(key))
}

fn reject_msg(pid: u64, gid: u64, ts: i64, key: &[u8]) -> String {
    format!("reject:proposal_{pid},guardian_{gid},timestamp:{ts},pubkey:{}", tag(key))
}

/// Wallet with guardians G1 (owner, keyed), G2 and G3 (plain, active).
fn quorum_wallet(threshold: u8) -> MultiSigWallet {
    let mut w =
        MultiSigWallet::initialize_multisig(threshold, b"cred".to_vec(), "alice".to_string(), 254)
            .unwrap();
    w.lamports = 10_000_000_000;
    w.add_guardian(0, 1, b"g1".to_vec(), &[1u8; 32].to_vec(), true, Some(OWNER_KEY.to_vec()))
        .unwrap();
    w.add_guardian(1, 2, b"g2".to_vec(), &[2u8; 32].to_vec(), false, None)
        .unwrap();
    w.add_guardian(1, 3, b"g3".to_vec(), &[3u8; 32].to_vec(), false, None)
        .unwrap();
    w
}

fn transfer_params(amount: u64, destination: &str) -> ActionParams {
    ActionParams {
        amount: Some(amount),
        destination: Some(destination.to_string()),
        token_mint: None,
    }
}

fn create(w: &mut MultiSigWallet, pid: u64, amount: u64, dest: &str) {
    w.create_proposal(
        pid,
        b"pay rent".to_vec(),
        2,
        "transfer".to_string(),
        transfer_params(amount, dest),
        "alice".to_string(),
        NOW,
    )
    .unwrap();
}

#[test]
fn create_proposal_snapshots_threshold() {
    let mut w = quorum_wallet(2);
    create(&mut w, 10, 1_000_000_000, "Dest111");
    let p = &w.proposals[0];
    assert_eq!(p.proposal_id, 10);
    assert_eq!(p.status, ProposalStatus::Pending);
    assert_eq!(p.signatures_count, 0);
    assert_eq!(p.required_signatures, 2);
    assert_eq!(p.created_at, NOW);
    assert_eq!(p.executed_at, None);
    assert_eq!(p.description, b"pay rent".to_vec());
}

#[test]
fn create_proposal_validation() {
    let mut w = quorum_wallet(2);
    let params = transfer_params(5, "D");
    // Unknown proposer.
    let r = w.create_proposal(
        10,
        b"d".to_vec(),
        99,
        "transfer".to_string(),
        params.clone(),
        "a".to_string(),
        NOW,
    );
    assert_eq!(r.unwrap_err(), WalletError::InvalidGuardian);
    // Inactive proposer.
    w.update_guardian_status(1, 3, false).unwrap();
    let r = w.create_proposal(
        10,
        b"d".to_vec(),
        3,
        "transfer".to_string(),
        params.clone(),
        "a".to_string(),
        NOW,
    );
    assert_eq!(r.unwrap_err(), WalletError::InactiveGuardian);
    // Description over 100 bytes.
    let r = w.create_proposal(
        10,
        vec![b'x'; 101],
        2,
        "transfer".to_string(),
        params.clone(),
        "a".to_string(),
        NOW,
    );
    assert_eq!(r.unwrap_err(), WalletError::NameTooLong);
    // Unsupported action.
    let r = w.create_proposal(
        10,
        b"d".to_vec(),
        2,
        "mint".to_string(),
        params.clone(),
        "a".to_string(),
        NOW,
    );
    assert_eq!(r.unwrap_err(), WalletError::UnsupportedAction);
    // Duplicate identifier.
    create(&mut w, 10, 5, "D");
    let r = w.create_proposal(
        10,
        b"d".to_vec(),
        2,
        "transfer".to_string(),
        params,
        "a".to_string(),
        NOW,
    );
    assert_eq!(r.unwrap_err(), WalletError::InvalidOperation);
    assert_eq!(w.proposals.len(), 1);
}

#[test]
fn double_approval_counts_once() {
    let mut w = quorum_wallet(2);
    create(&mut w, 10, 5, "D");
    let empty = String::new();
    // G2 carries no key, so no verification call is needed.
    w.approve_proposal(10, 2, NOW, &empty, None, NOW).unwrap();
    assert_eq!(w.proposals[0].signatures_count, 1);
    let r = w.approve_proposal(10, 2, NOW, &empty, None, NOW);
    assert_eq!(r.unwrap_err(), WalletError::InvalidOperation);
    assert_eq!(w.proposals[0].signatures_count, 1);
}

#[test]
fn execute_needs_snapshotted_threshold() {
    let mut w = quorum_wallet(2);
    create(&mut w, 10, 5, "D");
    let empty = String::new();
    w.approve_proposal(10, 2, NOW, &empty, None, NOW).unwrap();
    let mut dest = LedgerAccount { address: "D".to_string(), lamports: 0 };
    let r = w.execute_proposal(10, &mut dest, NOW);
    assert_eq!(r.unwrap_err(), WalletError::InvalidOperation);
    assert_eq!(w.proposals[0].status, ProposalStatus::Pending);
    w.approve_proposal(10, 3, NOW, &empty, None, NOW).unwrap();
    w.execute_proposal(10, &mut dest, NOW).unwrap();
    assert_eq!(w.proposals[0].status, ProposalStatus::Executed);
}

#[test]
fn quorum_scenario_end_to_end() {
    let mut w = quorum_wallet(2);
    create(&mut w, 77, 1_000_000_000, "Dest111");
    assert_eq!(w.proposals[0].status, ProposalStatus::Pending);
    assert_eq!(w.proposals[0].required_signatures, 2);

    // G1 approves through the signature bridge.
    let m1 = approve_msg(77, 1, NOW, &OWNER_KEY);
    let ix = secp_instruction(&OWNER_KEY);
    w.approve_proposal(77, 1, NOW, &m1, Some(&ix), NOW).unwrap();
    assert_eq!(w.proposals[0].signatures_count, 1);

    // A second approval by G1 fails and the count stays at one.
    let r = w.approve_proposal(77, 1, NOW, &m1, Some(&ix), NOW);
    assert_eq!(r.unwrap_err(), WalletError::InvalidOperation);
    assert_eq!(w.proposals[0].signatures_count, 1);

    // G2 approves; the threshold is reached.
    let empty = String::new();
    w.approve_proposal(77, 2, NOW, &empty, None, NOW).unwrap();
    assert_eq!(w.proposals[0].signatures_count, 2);

    // Execution moves the value and advances the nonce.
    let wallet_before = w.lamports;
    let mut dest = LedgerAccount { address: "Dest111".to_string(), lamports: 500 };
    let nonce_before = w.transaction_nonce;
    w.execute_proposal(77, &mut dest, NOW + 5).unwrap();
    assert_eq!(w.lamports, wallet_before - 1_000_000_000);
    assert_eq!(dest.lamports, 500 + 1_000_000_000);
    assert_eq!(w.transaction_nonce, nonce_before + 1);
    assert_eq!(w.proposals[0].status, ProposalStatus::Executed);
    assert_eq!(w.proposals[0].executed_at, Some(NOW + 5));
}

#[test]
fn approval_timestamp_window() {
    let mut w = quorum_wallet(2);
    create(&mut w, 10, 5, "D");
    let empty = String::new();
    let r = w.approve_proposal(10, 2, NOW - 400, &empty, None, NOW);
    assert_eq!(r.unwrap_err(), WalletError::ExpiredTimestamp);
    let r = w.approve_proposal(10, 2, NOW + 120, &empty, None, NOW);
    assert_eq!(r.unwrap_err(), WalletError::FutureTimestamp);
    assert_eq!(w.proposals[0].signatures_count, 0);
}

#[test]
fn approval_bridge_failures() {
    let mut w = quorum_wallet(1);
    create(&mut w, 10, 5, "D");
    let good = approve_msg(10, 1, NOW, &OWNER_KEY);
    let ix = secp_instruction(&OWNER_KEY);

    // No co-submitted verification call.
    let r = w.approve_proposal(10, 1, NOW, &good, None, NOW);
    assert_eq!(r.unwrap_err(), WalletError::InstructionMissing);

    // Wrong program address.
    let mut wrong_program = secp_instruction(&OWNER_KEY);
    wrong_program.program_id = "SomeOtherProgram11111111111111111111111111".to_string();
    let r = w.approve_proposal(10, 1, NOW, &good, Some(&wrong_program), NOW);
    assert_eq!(r.unwrap_err(), WalletError::InvalidSignatureVerification);

    // Malformed payload.
    let mut bad_payload = secp_instruction(&OWNER_KEY);
    bad_payload.data = vec![1u8; 4];
    let r = w.approve_proposal(10, 1, NOW, &good, Some(&bad_payload), NOW);
    assert_eq!(r.unwrap_err(), WalletError::InvalidInstructionData);

    // Two signatures announced.
    let mut two_sigs = secp_instruction(&OWNER_KEY);
    two_sigs.data[0] = 2;
    let r = w.approve_proposal(10, 1, NOW, &good, Some(&two_sigs), NOW);
    assert_eq!(r.unwrap_err(), WalletError::InvalidSignatureCount);

    // A different key in the payload.
    let other = secp_instruction(&[8u8; 33]);
    let r = w.approve_proposal(10, 1, NOW, &good, Some(&other), NOW);
    assert_eq!(r.unwrap_err(), WalletError::PublicKeyMismatch);

    // A message that does not match the canonical binding.
    let tampered = approve_msg(11, 1, NOW, &OWNER_KEY);
    let r = w.approve_proposal(10, 1, NOW, &tampered, Some(&ix), NOW);
    assert_eq!(r.unwrap_err(), WalletError::MessageMismatch);

    assert_eq!(w.proposals[0].signatures_count, 0);

    // The exact canonical message passes.
    w.approve_proposal(10, 1, NOW, &good, Some(&ix), NOW).unwrap();
    assert_eq!(w.proposals[0].signatures_count, 1);
}

#[test]
fn reject_is_a_single_guardian_veto() {
    let mut w = quorum_wallet(2);
    create(&mut w, 10, 5, "D");
    let empty = String::new();
    w.reject_proposal(10, 3, NOW, &empty, None, NOW).unwrap();
    assert_eq!(w.proposals[0].status, ProposalStatus::Rejected);
    // A settled proposal takes no further approvals or executions.
    let r = w.approve_proposal(10, 2, NOW, &empty, None, NOW);
    assert_eq!(r.unwrap_err(), WalletError::InvalidOperation);
    let mut dest = LedgerAccount { address: "D".to_string(), lamports: 0 };
    let r = w.execute_proposal(10, &mut dest, NOW);
    assert_eq!(r.unwrap_err(), WalletError::InvalidOperation);
}

#[test]
fn reject_through_bridge() {
    let mut w = quorum_wallet(2);
    create(&mut w, 10, 5, "D");
    let ix = secp_instruction(&OWNER_KEY);
    let good = reject_msg(10, 1, NOW, &OWNER_KEY);
    w.reject_proposal(10, 1, NOW, &good, Some(&ix), NOW).unwrap();
    assert_eq!(w.proposals[0].status, ProposalStatus::Rejected);
}

#[test]
fn execute_transfer_failures_leave_state_unchanged() {
    let mut w = quorum_wallet(1);
    let empty = String::new();

    // Unknown proposal.
    let mut dest = LedgerAccount { address: "D".to_string(), lamports: 100 };
    let r = w.execute_proposal(42, &mut dest, NOW);
    assert_eq!(r.unwrap_err(), WalletError::InvalidOperation);

    // Destination account differs from the proposal's parameters.
    create(&mut w, 10, 5, "D");
    w.approve_proposal(10, 2, NOW, &empty, None, NOW).unwrap();
    let mut other = LedgerAccount { address: "E".to_string(), lamports: 100 };
    let r = w.execute_proposal(10, &mut other, NOW);
    assert_eq!(r.unwrap_err(), WalletError::InvalidOperation);

    // Crediting the destination would overflow.
    let mut full = LedgerAccount { address: "D".to_string(), lamports: u64::MAX };
    let r = w.execute_proposal(10, &mut full, NOW);
    assert_eq!(r.unwrap_err(), WalletError::ArithmeticOverflow);
    assert_eq!(full.lamports, u64::MAX);

    // The wallet cannot cover the amount.
    w.lamports = 3;
    let r = w.execute_proposal(10, &mut dest, NOW);
    assert_eq!(r.unwrap_err(), WalletError::InsufficientFunds);
    assert_eq!(dest.lamports, 100);
    assert_eq!(w.lamports, 3);
    assert_eq!(w.proposals[0].status, ProposalStatus::Pending);
}

#[test]
fn approval_needs_existing_active_guardian() {
    let mut w = quorum_wallet(2);
    create(&mut w, 10, 5, "D");
    let empty = String::new();
    let r = w.approve_proposal(10, 99, NOW, &empty, None, NOW);
    assert_eq!(r.unwrap_err(), WalletError::InvalidGuardian);
    w.update_guardian_status(1, 2, false).unwrap();
    let r = w.approve_proposal(10, 2, NOW, &empty, None, NOW);
    assert_eq!(r.unwrap_err(), WalletError::InactiveGuardian);
}
