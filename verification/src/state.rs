//! The engine's data model: the wallet record with its guardian registry
//! and proposal set, and the well-formedness invariant that every entry
//! point preserves.
//!
//! Ledger identities (addresses) are carried in their canonical textual
//! form, exactly as the host renders them; the engine only compares them
//! and splices them into canonical messages.

use vstd::prelude::*;

verus! {

/// The lifecycle state of a proposal.  `Pending` leaves only through an
/// explicit execute or reject call; `Expired` is reserved and never set.
#[derive(Clone, Copy, Debug, PartialEq, Eq, Structural)]
pub enum ProposalStatus {
    Pending,
    Executed,
    Rejected,
    Expired,
}

/// A guardian of one wallet.  `recovery_hash` holds the digest of the
/// guardian's recovery proof; the proof itself is never persisted.
#[derive(Clone, Debug)]
pub struct Guardian {
    /// Identifier, unique within the wallet.
    pub guardian_id: u64,
    /// Display name, at most 32 bytes.
    pub name: Vec<u8>,
    /// An inactive guardian can neither approve nor reject nor anchor
    /// a recovery.
    pub is_active: bool,
    /// True for the single guardian that owns the direct-execute path.
    pub is_owner: bool,
    /// 32-byte digest of the recovery proof.
    pub recovery_hash: Vec<u8>,
    /// 33-byte compressed curve point; present whenever `is_owner` holds.
    pub webauthn_pubkey: Option<Vec<u8>>,
}

/// One guardian's approval of one proposal.  Its mere existence is the
/// deduplication mechanism: at most one per (proposal, guardian).
#[derive(Clone, Debug)]
pub struct ProposalSignature {
    pub guardian_id: u64,
    pub signature_time: i64,
}

/// The parameters of a proposal's action; only the fields that the action
/// needs are required at use time.
#[derive(Clone, Debug)]
pub struct ActionParams {
    /// Amount in base units of the native token.
    pub amount: Option<u64>,
    /// Destination address, in canonical text.
    pub destination: Option<String>,
    /// Token mint address, unused by the native transfer action.
    pub token_mint: Option<String>,
}

/// A pending or settled multisig transaction.
#[derive(Clone, Debug)]
pub struct TransactionProposal {
    /// Caller-chosen identifier, unique within the wallet.
    pub proposal_id: u64,
    /// Address of the account that created the proposal.
    pub proposer: String,
    /// Free-form description, at most 100 bytes.
    pub description: Vec<u8>,
    /// The action name; only "transfer" can be created.
    pub action: String,
    pub params: ActionParams,
    pub status: ProposalStatus,
    pub created_at: i64,
    /// Set exactly when the proposal is executed.
    pub executed_at: Option<i64>,
    /// Number of collected approvals; equals `signatures.len()`.
    pub signatures_count: u8,
    /// Snapshot of the wallet threshold at creation time.
    pub required_signatures: u8,
    /// The collected approvals, one per guardian.
    pub signatures: Vec<ProposalSignature>,
}

/// A plain ledger account that can hold native value.
#[derive(Clone, Debug)]
pub struct LedgerAccount {
    /// Address in canonical text.
    pub address: String,
    /// Balance in base units.
    pub lamports: u64,
}

/// The root state of one wallet.
#[derive(Clone, Debug)]
pub struct MultiSigWallet {
    /// Address of the wallet's creator.
    pub owner: String,
    /// Number of approvals a proposal needs; snapshotted at creation.
    pub threshold: u8,
    /// Number of registered guardians, at most eight.
    pub guardian_count: u8,
    /// Counts completed ownership recoveries.
    pub recovery_nonce: u64,
    /// Strictly increasing counter gating the direct-execute path.
    pub transaction_nonce: u64,
    /// Timestamp of the last executed transaction.
    pub last_transaction_timestamp: i64,
    /// WebAuthn credential identifier, 1 to 64 bytes; seeds the wallet's
    /// ledger address.
    pub credential_id: Vec<u8>,
    /// The bump byte of the derived ledger address.
    pub address_bump: u8,
    /// The wallet's own native balance, in base units.
    pub lamports: u64,
    /// The guardian registry.
    pub guardians: Vec<Guardian>,
    /// The proposal set.
    pub proposals: Vec<TransactionProposal>,
}

/// The name of the only supported action.
pub open spec fn transfer_action() -> Seq<char> {
    "transfer"@
}

impl Guardian {
    /// Shape invariant of a single guardian record.
    pub open spec fn wf(&self) -> bool {
        &&& self.name@.len() <= 32
        &&& self.recovery_hash@.len() == 32
        &&& (self.webauthn_pubkey matches Some(k) ==> k@.len() == 33)
        &&& (self.is_owner ==> self.webauthn_pubkey is Some)
    }
}

/// Whether some guardian in `gs` carries the given identifier.
pub open spec fn has_guardian_id(gs: Seq<Guardian>, guardian_id: u64) -> bool {
    exists|i: int| 0 <= i < gs.len() && gs[i].guardian_id == guardian_id
}

/// The index of the guardian with the given identifier; meaningful only
/// when it exists and identifiers are unique.
pub open spec fn guardian_index(gs: Seq<Guardian>, guardian_id: u64) -> int {
    choose|i: int| 0 <= i < gs.len() && gs[i].guardian_id == guardian_id
}

/// The guardian record with the given identifier.
pub open spec fn guardian_at(gs: Seq<Guardian>, guardian_id: u64) -> Guardian {
    gs[guardian_index(gs, guardian_id)]
}

/// Whether some guardian in `gs` is flagged as owner.
pub open spec fn has_owner(gs: Seq<Guardian>) -> bool {
    exists|i: int| 0 <= i < gs.len() && gs[i].is_owner
}

/// The index of the owner guardian; meaningful only when one exists and
/// the owner flag is unique.
pub open spec fn owner_index(gs: Seq<Guardian>) -> int {
    choose|i: int| 0 <= i < gs.len() && gs[i].is_owner
}

impl TransactionProposal {
    /// Shape invariant of a single proposal record.
    pub open spec fn wf(&self) -> bool {
        &&& self.description@.len() <= 100
        &&& self.action@ == transfer_action()
        &&& self.required_signatures >= 1
        &&& self.signatures_count as nat == self.signatures@.len()
        &&& forall|i: int, j: int|
            0 <= i < j < self.signatures@.len() ==> self.signatures@[i].guardian_id
                != self.signatures@[j].guardian_id
    }

    /// Whether the guardian has already approved this proposal.
    pub open spec fn has_approval(&self, guardian_id: u64) -> bool {
        exists|i: int|
            0 <= i < self.signatures@.len() && self.signatures@[i].guardian_id == guardian_id
    }

    /// Finds the position of a guardian's approval record.
    pub fn find_signature(&self, guardian_id: u64) -> (r: Option<usize>)
        ensures
            match r {
                Some(i) => 0 <= i < self.signatures@.len() && self.signatures@[i as int].guardian_id
                    == guardian_id,
                None => !self.has_approval(guardian_id),
            },
    {
        let mut i: usize = 0;
        while i < self.signatures.len()
            invariant
                i <= self.signatures@.len(),
                forall|j: int| 0 <= j < i ==> self.signatures@[j].guardian_id != guardian_id,
            decreases self.signatures@.len() - i,
        {
            if self.signatures[i].guardian_id == guardian_id {
                return Some(i);
            }
            i += 1;
        }
        None
    }
}

/// Whether some proposal in `ps` carries the given identifier.
pub open spec fn has_proposal_id(ps: Seq<TransactionProposal>, proposal_id: u64) -> bool {
    exists|i: int| 0 <= i < ps.len() && ps[i].proposal_id == proposal_id
}

/// The index of the proposal with the given identifier; meaningful only
/// when it exists and identifiers are unique.
pub open spec fn proposal_index(ps: Seq<TransactionProposal>, proposal_id: u64) -> int {
    choose|i: int| 0 <= i < ps.len() && ps[i].proposal_id == proposal_id
}

/// The proposal record with the given identifier.
pub open spec fn proposal_at(ps: Seq<TransactionProposal>, proposal_id: u64) -> TransactionProposal {
    ps[proposal_index(ps, proposal_id)]
}

impl MultiSigWallet {
    /// The well-formedness invariant of a wallet: guardian and proposal
    /// identifiers are unique, the registry respects its bound of eight,
    /// the owner flag is held by at most one guardian and that guardian
    /// carries a signing key, and every record is well shaped.
    pub open spec fn wf(&self) -> bool {
        &&& self.threshold >= 1
        &&& self.guardian_count as nat == self.guardians@.len()
        &&& self.guardian_count <= 8
        &&& 1 <= self.credential_id@.len() <= 64
        &&& forall|i: int|
            0 <= i < self.guardians@.len() ==> (#[trigger] self.guardians@[i]).wf()
        &&& forall|i: int, j: int|
            0 <= i < j < self.guardians@.len() ==> self.guardians@[i].guardian_id
                != self.guardians@[j].guardian_id
        &&& forall|i: int, j: int|
            0 <= i < self.guardians@.len() && 0 <= j < self.guardians@.len()
                && self.guardians@[i].is_owner && self.guardians@[j].is_owner ==> i == j
        &&& forall|i: int|
            0 <= i < self.proposals@.len() ==> (#[trigger] self.proposals@[i]).wf()
        &&& forall|i: int, j: int|
            0 <= i < j < self.proposals@.len() ==> self.proposals@[i].proposal_id
                != self.proposals@[j].proposal_id
    }

    /// Finds the position of a guardian by identifier.
    pub fn find_guardian(&self, guardian_id: u64) -> (r: Option<usize>)
        ensures
            match r {
                Some(i) => 0 <= i < self.guardians@.len() && self.guardians@[i as int].guardian_id
                    == guardian_id,
                None => !has_guardian_id(self.guardians@, guardian_id),
            },
    {
        let mut i: usize = 0;
        while i < self.guardians.len()
            invariant
                i <= self.guardians@.len(),
                forall|j: int| 0 <= j < i ==> self.guardians@[j].guardian_id != guardian_id,
            decreases self.guardians@.len() - i,
        {
            if self.guardians[i].guardian_id == guardian_id {
                return Some(i);
            }
            i += 1;
        }
        None
    }

    /// Finds the position of a proposal by identifier.
    pub fn find_proposal(&self, proposal_id: u64) -> (r: Option<usize>)
        ensures
            match r {
                Some(i) => 0 <= i < self.proposals@.len() && self.proposals@[i as int].proposal_id
                    == proposal_id,
                None => !has_proposal_id(self.proposals@, proposal_id),
            },
    {
        let mut i: usize = 0;
        while i < self.proposals.len()
            invariant
                i <= self.proposals@.len(),
                forall|j: int| 0 <= j < i ==> self.proposals@[j].proposal_id != proposal_id,
            decreases self.proposals@.len() - i,
        {
            if self.proposals[i].proposal_id == proposal_id {
                return Some(i);
            }
            i += 1;
        }
        None
    }

    /// Finds the position of the owner guardian.
    pub fn find_owner(&self) -> (r: Option<usize>)
        ensures
            match r {
                Some(i) => 0 <= i < self.guardians@.len() && self.guardians@[i as int].is_owner,
                None => !has_owner(self.guardians@),
            },
    {
        let mut i: usize = 0;
        while i < self.guardians.len()
            invariant
                i <= self.guardians@.len(),
                forall|j: int| 0 <= j < i ==> !self.guardians@[j].is_owner,
            decreases self.guardians@.len() - i,
        {
            if self.guardians[i].is_owner {
                return Some(i);
            }
            i += 1;
        }
        None
    }
}

/// In a well-formed registry, an index holding a given identifier is the
/// index that the spec selector names.
pub proof fn lemma_guardian_index_unique(w: &MultiSigWallet, i: int, guardian_id: u64)
    requires
        w.wf(),
        0 <= i < w.guardians@.len(),
        w.guardians@[i].guardian_id == guardian_id,
    ensures
        guardian_index(w.guardians@, guardian_id) == i,
        guardian_at(w.guardians@, guardian_id) == w.guardians@[i],
        has_guardian_id(w.guardians@, guardian_id),
{
    assert(has_guardian_id(w.guardians@, guardian_id));
    let j = guardian_index(w.guardians@, guardian_id);
    assert(0 <= j < w.guardians@.len() && w.guardians@[j].guardian_id == guardian_id);
}

/// In a well-formed proposal set, an index holding a given identifier is
/// the index that the spec selector names.
pub proof fn lemma_proposal_index_unique(w: &MultiSigWallet, i: int, proposal_id: u64)
    requires
        w.wf(),
        0 <= i < w.proposals@.len(),
        w.proposals@[i].proposal_id == proposal_id,
    ensures
        proposal_index(w.proposals@, proposal_id) == i,
        proposal_at(w.proposals@, proposal_id) == w.proposals@[i],
        has_proposal_id(w.proposals@, proposal_id),
{
    assert(has_proposal_id(w.proposals@, proposal_id));
    let j = proposal_index(w.proposals@, proposal_id);
    assert(0 <= j < w.proposals@.len() && w.proposals@[j].proposal_id == proposal_id);
}

/// In a well-formed registry, an index holding the owner flag is the index
/// that the spec selector names.
pub proof fn lemma_owner_index_unique(w: &MultiSigWallet, i: int)
    requires
        w.wf(),
        0 <= i < w.guardians@.len(),
        w.guardians@[i].is_owner,
    ensures
        owner_index(w.guardians@) == i,
        has_owner(w.guardians@),
{
    assert(has_owner(w.guardians@));
    let j = owner_index(w.guardians@);
    assert(0 <= j < w.guardians@.len() && w.guardians@[j].is_owner);
}

} // verus!
