//! Security properties of the engine, stated on their own.
//!
//! The first two facts are invariants: every entry point requires and
//! re-establishes `MultiSigWallet::wf`, so they hold of every reachable
//! wallet state.  The remaining facts pin down the refusal behaviour of
//! the entry points, over the same verdict functions that their
//! contracts are stated with.

use vstd::prelude::*;
use crate::bridge::VerificationInstruction;
use crate::digest::sha256_of;
use crate::errors::WalletError;
use crate::guardians::recover_access_error;
use crate::proposals::{approve_proposal_error, execute_proposal_error};
use crate::state::{
    ActionParams, LedgerAccount, MultiSigWallet, guardian_at, has_guardian_id, has_proposal_id,
    proposal_at,
};
use crate::wallet::verify_and_execute_error;

verus! {

/// The guardian count of a well-formed wallet never exceeds eight, and as
/// an unsigned field it cannot go negative.
pub proof fn lemma_guardian_count_bounded(w: &MultiSigWallet)
    requires
        w.wf(),
    ensures
        0 <= w.guardian_count <= 8,
        w.guardian_count as nat == w.guardians@.len(),
{
}

/// At most one guardian of a well-formed wallet holds the owner flag, and
/// a guardian that holds it always carries a WebAuthn key.  Together with
/// `has_owner`, this makes the owner guardian unique whenever one exists.
pub proof fn lemma_single_owner(w: &MultiSigWallet, i: int, j: int)
    requires
        w.wf(),
        0 <= i < w.guardians@.len(),
        0 <= j < w.guardians@.len(),
        w.guardians@[i].is_owner,
        w.guardians@[j].is_owner,
    ensures
        i == j,
        w.guardians@[i].webauthn_pubkey is Some,
{
}

/// A nonce at or below the wallet's transaction counter — every nonce a
/// successful direct execution has ever used — is always refused as
/// `InvalidNonce`, whatever else the call carries.
pub proof fn lemma_used_nonce_refused(
    w: MultiSigWallet,
    action: Seq<char>,
    params: ActionParams,
    nonce: u64,
    timestamp: i64,
    message: Seq<char>,
    instruction: Option<VerificationInstruction>,
    now: i64,
    destination: LedgerAccount,
)
    requires
        nonce <= w.transaction_nonce,
    ensures
        verify_and_execute_error(
            w,
            action,
            params,
            nonce,
            timestamp,
            message,
            instruction,
            now,
            destination,
        ) == Some(WalletError::InvalidNonce),
{
}

/// A guardian that has already approved a proposal can never approve it a
/// second time: the approval verdict is some error, so the signature
/// count cannot move.
pub proof fn lemma_double_approval_refused(
    w: MultiSigWallet,
    proposal_id: u64,
    guardian_id: u64,
    timestamp: i64,
    message: Seq<char>,
    instruction: Option<VerificationInstruction>,
    now: i64,
)
    requires
        has_proposal_id(w.proposals@, proposal_id),
        proposal_at(w.proposals@, proposal_id).has_approval(guardian_id),
    ensures
        approve_proposal_error(
            w,
            proposal_id,
            guardian_id,
            timestamp,
            message,
            instruction,
            now,
        ) is Some,
{
}

/// A proposal below the signature threshold snapshotted at its creation
/// is never executed, whatever the wallet's threshold has become since.
pub proof fn lemma_quorum_required(
    w: MultiSigWallet,
    proposal_id: u64,
    destination: LedgerAccount,
)
    requires
        has_proposal_id(w.proposals@, proposal_id),
        proposal_at(w.proposals@, proposal_id).signatures_count < proposal_at(
            w.proposals@,
            proposal_id,
        ).required_signatures,
    ensures
        execute_proposal_error(w, proposal_id, destination) is Some,
{
}

/// A recovery proof whose digest differs from the stored hash is refused
/// as `InvalidRecoveryKey` even when everything else about the handover
/// is in order — and the refusal contract of
/// `recover_access_by_guardian` then leaves the wallet unchanged.
pub proof fn lemma_wrong_proof_refused(
    w: MultiSigWallet,
    old_guardian_id: u64,
    new_guardian_id: u64,
    recovery_proof: Seq<u8>,
)
    requires
        has_guardian_id(w.guardians@, old_guardian_id),
        guardian_at(w.guardians@, old_guardian_id).is_owner,
        guardian_at(w.guardians@, old_guardian_id).is_active,
        has_guardian_id(w.guardians@, new_guardian_id),
        sha256_of(recovery_proof) != guardian_at(w.guardians@, old_guardian_id).recovery_hash@,
    ensures
        recover_access_error(w, old_guardian_id, new_guardian_id, recovery_proof) == Some(
            WalletError::InvalidRecoveryKey,
        ),
{
}

} // verus!
