//! Wallet creation, credential-id addressing, and the direct-execute
//! path: the single-owner equivalent of propose, approve and execute
//! merged into one nonce- and timestamp-gated call.

use vstd::prelude::*;
use vstd::string::StringExecFns;
use crate::bridge::{
    VerificationInstruction, build_transfer_message, secp256r1_program, secp_pubkey_result,
    transfer_message,
};
use crate::errors::WalletError;
use crate::state::{
    ActionParams, LedgerAccount, MultiSigWallet, has_owner, lemma_owner_index_unique, owner_index,
    transfer_action,
};

verus! {

/// The verdict of `initialize_multisig`.
pub open spec fn initialize_error(threshold: u8, credential_id: Seq<u8>) -> Option<WalletError> {
    if threshold == 0 {
        Some(WalletError::InvalidConfig)
    } else if credential_id.len() == 0 {
        Some(WalletError::InvalidConfig)
    } else if credential_id.len() > 64 {
        Some(WalletError::NameTooLong)
    } else {
        None
    }
}

/// The 24-byte state of the XOR fold after consuming the first `n` bytes
/// of `s`: each byte of `s` is folded into position `index % 24`.
pub open spec fn xor_fold(s: Seq<u8>, n: int) -> Seq<u8>
    decreases n,
{
    if n <= 0 {
        Seq::new(24, |i: int| 0u8)
    } else {
        let p = xor_fold(s, n - 1);
        p.update((n - 1) % 24, p[(n - 1) % 24] ^ s[n - 1])
    }
}

/// The 24-byte address seed of a credential identifier: the identifier
/// itself, zero-padded, when it fits; otherwise the index-wise XOR fold.
/// A routing convenience only — the fold is collision-prone and is never
/// an authorization boundary.
pub open spec fn credential_seed(s: Seq<u8>) -> Seq<u8> {
    if s.len() <= 24 {
        s + Seq::new((24 - s.len()) as nat, |i: int| 0u8)
    } else {
        xor_fold(s, s.len() as int)
    }
}

/// The XOR fold stays 24 bytes long.
proof fn lemma_xor_fold_len(s: Seq<u8>, n: int)
    ensures
        xor_fold(s, n).len() == 24,
    decreases n,
{
    if n > 0 {
        lemma_xor_fold_len(s, n - 1);
    }
}

/// Derives the 24-byte ledger-address seed from a credential identifier.
pub fn process_credential_id_seed(credential_id: &[u8]) -> (r: Vec<u8>)
    ensures
        r@ == credential_seed(credential_id@),
        r@.len() == 24,
{
    if credential_id.len() <= 24 {
        let mut result: Vec<u8> = Vec::new();
        let mut i: usize = 0;
        while i < credential_id.len()
            invariant
                i <= credential_id@.len() <= 24,
                result@ =~= credential_id@.take(i as int),
            decreases credential_id@.len() - i,
        {
            result.push(credential_id[i]);
            assert(result@ =~= credential_id@.take(i + 1));
            i += 1;
        }
        while result.len() < 24
            invariant
                credential_id@.len() <= result@.len() <= 24,
                result@.take(credential_id@.len() as int) =~= credential_id@,
                forall|j: int| credential_id@.len() <= j < result@.len() ==> result@[j] == 0u8,
            decreases 24 - result@.len(),
        {
            result.push(0u8);
        }
        assert(result@ =~= credential_seed(credential_id@));
        result
    } else {
        let mut result: Vec<u8> = Vec::new();
        let mut k: usize = 0;
        while k < 24
            invariant
                k <= 24,
                result@ =~= Seq::new(k as nat, |i: int| 0u8),
            decreases 24 - k,
        {
            result.push(0u8);
            assert(result@ =~= Seq::new(k as nat + 1, |i: int| 0u8));
            k += 1;
        }
        assert(result@ =~= xor_fold(credential_id@, 0));
        let mut i: usize = 0;
        while i < credential_id.len()
            invariant
                i <= credential_id@.len(),
                result@ == xor_fold(credential_id@, i as int),
                result@.len() == 24,
            decreases credential_id@.len() - i,
        {
            let pos = i % 24;
            let folded = result[pos] ^ credential_id[i];
            result.set(pos, folded);
            i += 1;
        }
        result
    }
}

/// The verdict of `verify_and_execute`: strict nonce sequencing, the
/// timestamp window, the co-submitted verification call, the owner
/// guardian's key, the canonical transfer binding, and the checked
/// transfer itself, in that order.
pub open spec fn verify_and_execute_error(
    w: MultiSigWallet,
    action: Seq<char>,
    params: ActionParams,
    nonce: u64,
    timestamp: i64,
    message: Seq<char>,
    instruction: Option<VerificationInstruction>,
    now: i64,
    destination: LedgerAccount,
) -> Option<WalletError> {
    if nonce != w.transaction_nonce + 1 {
        Some(WalletError::InvalidNonce)
    } else if timestamp > now + 60 {
        Some(WalletError::FutureTimestamp)
    } else if timestamp < w.last_transaction_timestamp {
        Some(WalletError::OutdatedTimestamp)
    } else if timestamp < now - 300 {
        Some(WalletError::ExpiredTimestamp)
    } else if instruction is None {
        Some(WalletError::InstructionMissing)
    } else if instruction->0.program_id@ != secp256r1_program() {
        Some(WalletError::InvalidSignatureVerification)
    } else if !has_owner(w.guardians@) {
        Some(WalletError::InvalidGuardian)
    } else {
        match w.guardians@[owner_index(w.guardians@)].webauthn_pubkey {
            None => Some(WalletError::WebAuthnNotConfigured),
            Some(key) => match secp_pubkey_result(instruction->0.data@) {
                Err(e) => Some(e),
                Ok(pk) => if pk != key@ {
                    Some(WalletError::PublicKeyMismatch)
                } else if action != transfer_action() {
                    Some(WalletError::UnsupportedAction)
                } else if params.amount is None {
                    Some(WalletError::InvalidOperation)
                } else if params.destination is None {
                    Some(WalletError::InvalidOperation)
                } else if message != transfer_message(
                    params.amount->0,
                    params.destination->0@,
                    nonce,
                    timestamp,
                    key@,
                ) {
                    Some(WalletError::MessageMismatch)
                } else if params.destination->0@ != destination.address@ {
                    Some(WalletError::InvalidOperation)
                } else if destination.lamports + params.amount->0 > u64::MAX {
                    Some(WalletError::ArithmeticOverflow)
                } else if w.lamports < params.amount->0 {
                    Some(WalletError::InsufficientFunds)
                } else {
                    None
                },
            },
        }
    }
}

impl MultiSigWallet {
    /// Creates a wallet record.  The threshold must be positive and the
    /// credential identifier non-empty and at most 64 bytes.  All
    /// counters start at zero and the registry and proposal set empty.
    pub fn initialize_multisig(
        threshold: u8,
        credential_id: Vec<u8>,
        owner: String,
        address_bump: u8,
    ) -> (r: Result<MultiSigWallet, WalletError>)
        ensures
            match r {
                Ok(w) => {
                    &&& initialize_error(threshold, credential_id@) is None
                    &&& w.wf()
                    &&& w.owner == owner
                    &&& w.threshold == threshold
                    &&& w.guardian_count == 0
                    &&& w.recovery_nonce == 0
                    &&& w.transaction_nonce == 0
                    &&& w.last_transaction_timestamp == 0
                    &&& w.credential_id == credential_id
                    &&& w.address_bump == address_bump
                    &&& w.lamports == 0
                    &&& w.guardians@ =~= Seq::<crate::state::Guardian>::empty()
                    &&& w.proposals@ =~= Seq::<crate::state::TransactionProposal>::empty()
                },
                Err(e) => initialize_error(threshold, credential_id@) == Some(e),
            },
    {
        if threshold == 0 {
            return Err(WalletError::InvalidConfig);
        }
        if credential_id.len() == 0 {
            return Err(WalletError::InvalidConfig);
        }
        if credential_id.len() > 64 {
            return Err(WalletError::NameTooLong);
        }
        Ok(
            MultiSigWallet {
                owner,
                threshold,
                guardian_count: 0,
                recovery_nonce: 0,
                transaction_nonce: 0,
                last_transaction_timestamp: 0,
                credential_id,
                address_bump,
                lamports: 0,
                guardians: Vec::new(),
                proposals: Vec::new(),
            },
        )
    }

    /// Verifies a single-owner assertion and executes the transfer in one
    /// call.  The nonce must be exactly the successor of the wallet's
    /// transaction nonce, so a successful call advances it by exactly one
    /// and replaying a used nonce always fails; the timestamp must fall
    /// in [now - 300, now + 60] and not precede the last transaction; the
    /// co-submitted verification call must carry the owner guardian's key;
    /// and the message must equal the canonical transfer binding of the
    /// amount, destination, nonce, timestamp and key tag.
    pub fn verify_and_execute(
        &mut self,
        action: String,
        params: ActionParams,
        nonce: u64,
        timestamp: i64,
        message: &String,
        instruction: Option<&VerificationInstruction>,
        now: i64,
        destination: &mut LedgerAccount,
    ) -> (r: Result<(), WalletError>)
        requires
            old(self).wf(),
            now <= i64::MAX - 60,
            now >= i64::MIN + 300,
        ensures
            final(self).wf(),
            ({
                let verdict = verify_and_execute_error(
                    *old(self),
                    action@,
                    params,
                    nonce,
                    timestamp,
                    message@,
                    match instruction {
                        Some(ix) => Some(*ix),
                        None => None,
                    },
                    now,
                    *old(destination),
                );
                match r {
                    Ok(()) => {
                        &&& verdict is None
                        &&& nonce == old(self).transaction_nonce + 1
                        &&& final(self).transaction_nonce == old(self).transaction_nonce + 1
                        &&& final(self).last_transaction_timestamp == timestamp
                        &&& final(self).lamports == old(self).lamports - params.amount->0
                        &&& final(destination).lamports == old(destination).lamports
                            + params.amount->0
                        &&& final(destination).address == old(destination).address
                        &&& *final(self) == (MultiSigWallet {
                            transaction_nonce: final(self).transaction_nonce,
                            last_transaction_timestamp: final(self).last_transaction_timestamp,
                            lamports: final(self).lamports,
                            ..*old(self)
                        })
                    },
                    Err(e) => {
                        &&& verdict == Some(e)
                        &&& *final(self) == *old(self)
                        &&& *final(destination) == *old(destination)
                    },
                }
            }),
    {
        if self.transaction_nonce == u64::MAX || nonce != self.transaction_nonce + 1 {
            return Err(WalletError::InvalidNonce);
        }
        if timestamp > now + 60 {
            return Err(WalletError::FutureTimestamp);
        }
        if timestamp < self.last_transaction_timestamp {
            return Err(WalletError::OutdatedTimestamp);
        }
        if timestamp < now - 300 {
            return Err(WalletError::ExpiredTimestamp);
        }
        let ix = match instruction {
            None => {
                return Err(WalletError::InstructionMissing);
            },
            Some(ix) => ix,
        };
        let expected_program = String::from_str("Secp256r1SigVerify1111111111111111111111111");
        if !(ix.program_id == expected_program) {
            return Err(WalletError::InvalidSignatureVerification);
        }
        let oi = match self.find_owner() {
            None => {
                return Err(WalletError::InvalidGuardian);
            },
            Some(oi) => {
                proof {
                    lemma_owner_index_unique(self, oi as int);
                }
                oi
            },
        };
        let key = match &self.guardians[oi].webauthn_pubkey {
            None => {
                return Err(WalletError::WebAuthnNotConfigured);
            },
            Some(key) => key,
        };
        let pk = match crate::bridge::extract_public_key_from_secp_instruction(
            ix.data.as_slice(),
        ) {
            Err(e) => {
                return Err(e);
            },
            Ok(pk) => pk,
        };
        if !crate::encode::bytes_eq(pk.as_slice(), key.as_slice()) {
            return Err(WalletError::PublicKeyMismatch);
        }
        let transfer = String::from_str("transfer");
        if !(action == transfer) {
            return Err(WalletError::UnsupportedAction);
        }
        let amount = match params.amount {
            None => {
                return Err(WalletError::InvalidOperation);
            },
            Some(amount) => amount,
        };
        let dest_text = match &params.destination {
            None => {
                return Err(WalletError::InvalidOperation);
            },
            Some(d) => d,
        };
        let expected = build_transfer_message(
            amount,
            dest_text.as_str(),
            nonce,
            timestamp,
            key.as_slice(),
        );
        if !(*message == expected) {
            return Err(WalletError::MessageMismatch);
        }
        if !(*dest_text == destination.address) {
            return Err(WalletError::InvalidOperation);
        }
        let credited = match destination.lamports.checked_add(amount) {
            None => {
                return Err(WalletError::ArithmeticOverflow);
            },
            Some(credited) => credited,
        };
        let debited = match self.lamports.checked_sub(amount) {
            None => {
                return Err(WalletError::InsufficientFunds);
            },
            Some(debited) => debited,
        };
        destination.lamports = credited;
        self.lamports = debited;
        self.transaction_nonce = nonce;
        self.last_transaction_timestamp = timestamp;
        Ok(())
    }
}

} // verus!
