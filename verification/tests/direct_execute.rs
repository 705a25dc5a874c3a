use moon_wallet::bridge::VerificationInstruction;
use moon_wallet::errors::WalletError;
use moon_wallet::state::{ActionParams, LedgerAccount, MultiSigWallet};
use sha2::Digest;

const OWNER_KEY: [u8; 33] = [7u8; 33];
const NOW: i64 = 1_700_000_000;

fn tag(key: &[u8]) -> String {
    let d = sha2::Sha256::digest(key);
    format!("{:02x}{:02x}{:02x}", d[0], d[1], d[2])
}

fn secp_instruction(key: &[u8]) -> VerificationInstruction {
    let mut data = vec![0u8; 16];
    data[0] = 1;
    data[6] = 16;
    data.extend_from_slice(key);
    VerificationInstruction {
        program_id: "Secp256r1SigVerify1111111111111111111111111".to_string(),
        data,
    }
}

fn sol_text(amount: u64) -> String {
    let mut s = String::new();
    moon_wallet::encode::append_sol_amount(&mut s, amount);
    s
}

fn transfer_msg(amount: u64, dest: &str, nonce: u64, ts: i64, key: &[u8]) -> String {
    format!(
        "transfer:{}_SOL_to_{dest},nonce:{nonce},timestamp:{ts},pubkey:{}",
        sol_text(amount),
        tag(key)
    )
}

fn owner_wallet() -> MultiSigWallet {
    let mut w =
        MultiSigWallet::initialize_multisig(1, b"cred".to_vec(), "alice".to_string(), 254).unwrap();
    w.lamports = 10_000_000_000;
    w.add_guardian(0, 1, b"g1".to_vec(), &[1u8; 32].to_vec(), true, Some(OWNER_KEY.to_vec()))
        .unwrap();
    w
}

fn params(amount: u64, dest: &str) -> ActionParams {
    ActionParams {
        amount: Some(amount),
        destination: Some(dest.to_string()),
        token_mint: None,
    }
}

fn run(
    w: &mut MultiSigWallet,
    dest: &mut LedgerAccount,
    amount: u64,
    nonce: u64,
    ts: i64,
) -> Result<(), WalletError> {
    let msg = transfer_msg(amount, &dest.address, nonce, ts, &OWNER_KEY);
    let ix = secp_instruction(&OWNER_KEY);
    w.verify_and_execute(
        "transfer".to_string(),
        params(amount, &dest.address),
        nonce,
        ts,
        &msg,
        Some(&ix),
        NOW,
        dest,
    )
}

#[test]
fn direct_execute_moves_value_and_nonce() {
    let mut w = owner_wallet();
    let mut dest = LedgerAccount { address: "Dest111".to_string(), lamports: 10 };
    run(&mut w, &mut dest, 1_500_000_000, 1, NOW).unwrap();
    assert_eq!(w.lamports, 10_000_000_000 - 1_500_000_000);
    assert_eq!(dest.lamports, 10 + 1_500_000_000);
    assert_eq!(w.transaction_nonce, 1);
    assert_eq!(w.last_transaction_timestamp, NOW);
}

#[test]
fn nonce_must_be_the_successor() {
    let mut w = owner_wallet();
    let mut dest = LedgerAccount { address: "Dest111".to_string(), lamports: 0 };
    // Skipping ahead fails.
    assert_eq!(run(&mut w, &mut dest, 5, 2, NOW).unwrap_err(), WalletError::InvalidNonce);
    // The successor works, exactly once.
    run(&mut w, &mut dest, 5, 1, NOW).unwrap();
    assert_eq!(w.transaction_nonce, 1);
    // Replaying the used nonce always fails.
    assert_eq!(run(&mut w, &mut dest, 5, 1, NOW).unwrap_err(), WalletError::InvalidNonce);
    assert_eq!(w.transaction_nonce, 1);
    run(&mut w, &mut dest, 5, 2, NOW).unwrap();
    assert_eq!(w.transaction_nonce, 2);
}

#[test]
fn timestamp_window_and_message_binding() {
    let mut w = owner_wallet();
    let mut dest = LedgerAccount { address: "Dest111".to_string(), lamports: 0 };
    // 400 seconds in the past.
    assert_eq!(
        run(&mut w, &mut dest, 5, 1, NOW - 400).unwrap_err(),
        WalletError::ExpiredTimestamp
    );
    // 120 seconds in the future.
    assert_eq!(
        run(&mut w, &mut dest, 5, 1, NOW + 120).unwrap_err(),
        WalletError::FutureTimestamp
    );
    // A message reconstructed over different values does not match.
    let wrong = transfer_msg(6, "Dest111", 1, NOW, &OWNER_KEY);
    let ix = secp_instruction(&OWNER_KEY);
    let r = w.verify_and_execute(
        "transfer".to_string(),
        params(5, "Dest111"),
        1,
        NOW,
        &wrong,
        Some(&ix),
        NOW,
        &mut dest,
    );
    assert_eq!(r.unwrap_err(), WalletError::MessageMismatch);
    assert_eq!(w.transaction_nonce, 0);
    assert_eq!(w.lamports, 10_000_000_000);
}

#[test]
fn outdated_timestamp_is_refused() {
    let mut w = owner_wallet();
    let mut dest = LedgerAccount { address: "Dest111".to_string(), lamports: 0 };
    w.last_transaction_timestamp = NOW + 30;
    assert_eq!(
        run(&mut w, &mut dest, 5, 1, NOW).unwrap_err(),
        WalletError::OutdatedTimestamp
    );
}

#[test]
fn direct_execute_needs_verification_call() {
    let mut w = owner_wallet();
    let mut dest = LedgerAccount { address: "Dest111".to_string(), lamports: 0 };
    let msg = transfer_msg(5, "Dest111", 1, NOW, &OWNER_KEY);
    let r = w.verify_and_execute(
        "transfer".to_string(),
        params(5, "Dest111"),
        1,
        NOW,
        &msg,
        None,
        NOW,
        &mut dest,
    );
    assert_eq!(r.unwrap_err(), WalletError::InstructionMissing);

    let mut wrong_program = secp_instruction(&OWNER_KEY);
    wrong_program.program_id = "SomeOtherProgram11111111111111111111111111".to_string();
    let r = w.verify_and_execute(
        "transfer".to_string(),
        params(5, "Dest111"),
        1,
        NOW,
        &msg,
        Some(&wrong_program),
        NOW,
        &mut dest,
    );
    assert_eq!(r.unwrap_err(), WalletError::InvalidSignatureVerification);

    let other_key = secp_instruction(&[8u8; 33]);
    let r = w.verify_and_execute(
        "transfer".to_string(),
        params(5, "Dest111"),
        1,
        NOW,
        &msg,
        Some(&other_key),
        NOW,
        &mut dest,
    );
    assert_eq!(r.unwrap_err(), WalletError::PublicKeyMismatch);
}

#[test]
fn direct_execute_validates_action_and_params() {
    let mut w = owner_wallet();
    let mut dest = LedgerAccount { address: "Dest111".to_string(), lamports: 0 };
    let msg = transfer_msg(5, "Dest111", 1, NOW, &OWNER_KEY);
    let ix = secp_instruction(&OWNER_KEY);
    let r = w.verify_and_execute(
        "mint".to_string(),
        params(5, "Dest111"),
        1,
        NOW,
        &msg,
        Some(&ix),
        NOW,
        &mut dest,
    );
    assert_eq!(r.unwrap_err(), WalletError::UnsupportedAction);
    let r = w.verify_and_execute(
        "transfer".to_string(),
        ActionParams { amount: None, destination: Some("Dest111".to_string()), token_mint: None },
        1,
        NOW,
        &msg,
        Some(&ix),
        NOW,
        &mut dest,
    );
    assert_eq!(r.unwrap_err(), WalletError::InvalidOperation);
}

#[test]
fn direct_execute_needs_an_owner_guardian() {
    let mut w =
        MultiSigWallet::initialize_multisig(1, b"cred".to_vec(), "alice".to_string(), 254).unwrap();
    w.lamports = 100;
    w.add_guardian(0, 2, b"g2".to_vec(), &[2u8; 32].to_vec(), false, None)
        .unwrap();
    let mut dest = LedgerAccount { address: "Dest111".to_string(), lamports: 0 };
    assert_eq!(run(&mut w, &mut dest, 5, 1, NOW).unwrap_err(), WalletError::InvalidGuardian);
}

#[test]
fn direct_execute_checked_arithmetic() {
    let mut w = owner_wallet();
    let mut full = LedgerAccount { address: "Dest111".to_string(), lamports: u64::MAX };
    assert_eq!(
        run(&mut w, &mut full, 5, 1, NOW).unwrap_err(),
        WalletError::ArithmeticOverflow
    );
    let mut dest = LedgerAccount { address: "Dest111".to_string(), lamports: 0 };
    w.lamports = 3;
    assert_eq!(
        run(&mut w, &mut dest, 5, 1, NOW).unwrap_err(),
        WalletError::InsufficientFunds
    );
    assert_eq!(w.lamports, 3);
    assert_eq!(w.transaction_nonce, 0);
}

#[test]
fn direct_execute_after_recovery_uses_new_key() {
    let mut w = owner_wallet();
    w.add_guardian(1, 2, b"g2".to_vec(), &[2u8; 32].to_vec(), false, None)
        .unwrap();
    let new_key = [9u8; 33];
    w.recover_access_by_guardian(1, 2, &[1u8; 32].to_vec(), new_key.to_vec())
        .unwrap();
    let mut dest = LedgerAccount { address: "Dest111".to_string(), lamports: 0 };
    // The old key no longer verifies.
    assert_eq!(run(&mut w, &mut dest, 5, 1, NOW).unwrap_err(), WalletError::PublicKeyMismatch);
    // The new key does.
    let msg = transfer_msg(5, "Dest111", 1, NOW, &new_key);
    let ix = secp_instruction(&new_key);
    w.verify_and_execute(
        "transfer".to_string(),
        params(5, "Dest111"),
        1,
        NOW,
        &msg,
        Some(&ix),
        NOW,
        &mut dest,
    )
    .unwrap();
    assert_eq!(dest.lamports, 5);
}
