//! The proposal engine: create, approve, reject, execute.
//!
//! A proposal moves from `Pending` to `Executed` or `Rejected` through
//! explicit calls only.  Approvals are deduplicated by the existence of a
//! per-(proposal, guardian) signature record; reaching the threshold never
//! executes by itself.  Each approval or rejection of a guardian that
//! carries a signing key must pass the signature verification bridge.

use vstd::prelude::*;
use vstd::string::StringExecFns;
use crate::bridge::{
    VerificationInstruction, approve_message, bridge_error, build_approve_message,
    build_reject_message, check_signature_bridge, reject_message,
};
use crate::errors::WalletError;
use crate::state::{
    ActionParams, LedgerAccount, MultiSigWallet, ProposalSignature, ProposalStatus,
    TransactionProposal, guardian_at, has_guardian_id, has_proposal_id, lemma_guardian_index_unique,
    lemma_proposal_index_unique, proposal_at, proposal_index, transfer_action,
};

verus! {

/// The verdict of `create_proposal`.
pub open spec fn create_proposal_error(
    w: MultiSigWallet,
    proposal_id: u64,
    description: Seq<u8>,
    proposer_guardian_id: u64,
    action: Seq<char>,
) -> Option<WalletError> {
    if !has_guardian_id(w.guardians@, proposer_guardian_id) {
        Some(WalletError::InvalidGuardian)
    } else if !guardian_at(w.guardians@, proposer_guardian_id).is_active {
        Some(WalletError::InactiveGuardian)
    } else if description.len() > 100 {
        Some(WalletError::NameTooLong)
    } else if action != transfer_action() {
        Some(WalletError::UnsupportedAction)
    } else if has_proposal_id(w.proposals@, proposal_id) {
        Some(WalletError::InvalidOperation)
    } else {
        None
    }
}

/// The verdict of `approve_proposal`.  The timestamp must fall in the
/// window [now - 300, now + 60]; a guardian with a signing key must pass
/// the bridge against the canonical approve binding; a second approval by
/// the same guardian is refused.
pub open spec fn approve_proposal_error(
    w: MultiSigWallet,
    proposal_id: u64,
    guardian_id: u64,
    timestamp: i64,
    message: Seq<char>,
    instruction: Option<VerificationInstruction>,
    now: i64,
) -> Option<WalletError> {
    if !has_proposal_id(w.proposals@, proposal_id) {
        Some(WalletError::InvalidOperation)
    } else if !(proposal_at(w.proposals@, proposal_id).status is Pending) {
        Some(WalletError::InvalidOperation)
    } else if !has_guardian_id(w.guardians@, guardian_id) {
        Some(WalletError::InvalidGuardian)
    } else if !guardian_at(w.guardians@, guardian_id).is_active {
        Some(WalletError::InactiveGuardian)
    } else if timestamp > now + 60 {
        Some(WalletError::FutureTimestamp)
    } else if timestamp < now - 300 {
        Some(WalletError::ExpiredTimestamp)
    } else {
        let gate = match guardian_at(w.guardians@, guardian_id).webauthn_pubkey {
            Some(key) => bridge_error(
                instruction,
                key@,
                approve_message(proposal_id, guardian_id, timestamp, key@),
                message,
            ),
            None => None,
        };
        if gate is Some {
            gate
        } else if proposal_at(w.proposals@, proposal_id).has_approval(guardian_id) {
            Some(WalletError::InvalidOperation)
        } else {
            None
        }
    }
}

/// The verdict of `reject_proposal`: the same gate as approval, against
/// the canonical reject binding, without deduplication — one veto ends
/// the proposal.
pub open spec fn reject_proposal_error(
    w: MultiSigWallet,
    proposal_id: u64,
    guardian_id: u64,
    timestamp: i64,
    message: Seq<char>,
    instruction: Option<VerificationInstruction>,
    now: i64,
) -> Option<WalletError> {
    if !has_proposal_id(w.proposals@, proposal_id) {
        Some(WalletError::InvalidOperation)
    } else if !(proposal_at(w.proposals@, proposal_id).status is Pending) {
        Some(WalletError::InvalidOperation)
    } else if !has_guardian_id(w.guardians@, guardian_id) {
        Some(WalletError::InvalidGuardian)
    } else if !guardian_at(w.guardians@, guardian_id).is_active {
        Some(WalletError::InactiveGuardian)
    } else if timestamp > now + 60 {
        Some(WalletError::FutureTimestamp)
    } else if timestamp < now - 300 {
        Some(WalletError::ExpiredTimestamp)
    } else {
        match guardian_at(w.guardians@, guardian_id).webauthn_pubkey {
            Some(key) => bridge_error(
                instruction,
                key@,
                reject_message(proposal_id, guardian_id, timestamp, key@),
                message,
            ),
            None => None,
        }
    }
}

/// The verdict of `execute_proposal`.  Execution demands the threshold
/// snapshotted at creation, a destination account matching the proposal's
/// parameters, and a transfer that neither overflows the destination nor
/// overdraws the wallet.
pub open spec fn execute_proposal_error(
    w: MultiSigWallet,
    proposal_id: u64,
    destination: LedgerAccount,
) -> Option<WalletError> {
    if !has_proposal_id(w.proposals@, proposal_id) {
        Some(WalletError::InvalidOperation)
    } else {
        let p = proposal_at(w.proposals@, proposal_id);
        if !(p.status is Pending) {
            Some(WalletError::InvalidOperation)
        } else if p.signatures_count < p.required_signatures {
            Some(WalletError::InvalidOperation)
        } else if p.action@ != transfer_action() {
            Some(WalletError::UnsupportedAction)
        } else if p.params.destination is None {
            Some(WalletError::InvalidOperation)
        } else if p.params.destination->0@ != destination.address@ {
            Some(WalletError::InvalidOperation)
        } else if p.params.amount is None {
            Some(WalletError::InvalidOperation)
        } else if destination.lamports + p.params.amount->0 > u64::MAX {
            Some(WalletError::ArithmeticOverflow)
        } else if w.lamports < p.params.amount->0 {
            Some(WalletError::InsufficientFunds)
        } else {
            None
        }
    }
}

impl MultiSigWallet {
    /// Creates a proposal in `Pending` state.  The proposer guardian must
    /// be active, the description fits 100 bytes, only the "transfer"
    /// action is supported, and the identifier must be fresh.  The current
    /// threshold is snapshotted as the proposal's required signature
    /// count and later threshold changes do not affect it.
    pub fn create_proposal(
        &mut self,
        proposal_id: u64,
        description: Vec<u8>,
        proposer_guardian_id: u64,
        action: String,
        params: ActionParams,
        proposer: String,
        now: i64,
    ) -> (r: Result<(), WalletError>)
        requires
            old(self).wf(),
        ensures
            final(self).wf(),
            ({
                let verdict = create_proposal_error(
                    *old(self),
                    proposal_id,
                    description@,
                    proposer_guardian_id,
                    action@,
                );
                match r {
                    Ok(()) => {
                        &&& verdict is None
                        &&& final(self).proposals@.len() == old(self).proposals@.len() + 1
                        &&& final(self).proposals@.drop_last() == old(self).proposals@
                        &&& ({
                            let p = final(self).proposals@.last();
                            &&& p.proposal_id == proposal_id
                            &&& p.proposer == proposer
                            &&& p.description == description
                            &&& p.action == action
                            &&& p.params == params
                            &&& p.status is Pending
                            &&& p.created_at == now
                            &&& p.executed_at is None
                            &&& p.signatures_count == 0
                            &&& p.required_signatures == old(self).threshold
                            &&& p.signatures@ =~= Seq::<ProposalSignature>::empty()
                        })
                        &&& *final(self) == (MultiSigWallet {
                            proposals: final(self).proposals,
                            ..*old(self)
                        })
                    },
                    Err(e) => verdict == Some(e) && *final(self) == *old(self),
                }
            }),
    {
        match self.find_guardian(proposer_guardian_id) {
            None => {
                return Err(WalletError::InvalidGuardian);
            },
            Some(gi) => {
                proof {
                    lemma_guardian_index_unique(self, gi as int, proposer_guardian_id);
                }
                if !self.guardians[gi].is_active {
                    return Err(WalletError::InactiveGuardian);
                }
            },
        }
        if description.len() > 100 {
            return Err(WalletError::NameTooLong);
        }
        let transfer = String::from_str("transfer");
        if !(action == transfer) {
            return Err(WalletError::UnsupportedAction);
        }
        match self.find_proposal(proposal_id) {
            Some(pi) => {
                proof {
                    lemma_proposal_index_unique(self, pi as int, proposal_id);
                }
                return Err(WalletError::InvalidOperation);
            },
            None => {},
        }
        let proposal = TransactionProposal {
            proposal_id,
            proposer,
            description,
            action,
            params,
            status: ProposalStatus::Pending,
            created_at: now,
            executed_at: None,
            signatures_count: 0,
            required_signatures: self.threshold,
            signatures: Vec::new(),
        };
        self.proposals.push(proposal);
        proof {
            let ps = final(self).proposals@;
            let os = old(self).proposals@;
            assert(ps.drop_last() =~= os);
            assert forall|i: int, j: int| 0 <= i < j < ps.len() implies ps[i].proposal_id
                != ps[j].proposal_id by {
                if j == ps.len() - 1 {
                    assert(!has_proposal_id(os, proposal_id));
                    assert(os[i].proposal_id != proposal_id);
                }
            }
            assert forall|i: int| 0 <= i < ps.len() implies (#[trigger] ps[i]).wf() by {
                if i < ps.len() - 1 {
                    assert(os[i].wf());
                }
            }
        }
        Ok(())
    }

    /// Records one guardian's approval of a pending proposal.  The same
    /// guardian approving twice fails on the uniqueness of the signature
    /// record and leaves the count unchanged.  Approvals carry no ordering
    /// and do not execute the proposal, however many there are.
    pub fn approve_proposal(
        &mut self,
        proposal_id: u64,
        guardian_id: u64,
        timestamp: i64,
        message: &String,
        instruction: Option<&VerificationInstruction>,
        now: i64,
    ) -> (r: Result<(), WalletError>)
        requires
            old(self).wf(),
            now <= i64::MAX - 60,
            now >= i64::MIN + 300,
            has_proposal_id(old(self).proposals@, proposal_id) ==> proposal_at(
                old(self).proposals@,
                proposal_id,
            ).signatures_count < u8::MAX,
        ensures
            final(self).wf(),
            ({
                let verdict = approve_proposal_error(
                    *old(self),
                    proposal_id,
                    guardian_id,
                    timestamp,
                    message@,
                    match instruction {
                        Some(ix) => Some(*ix),
                        None => None,
                    },
                    now,
                );
                match r {
                    Ok(()) => {
                        &&& verdict is None
                        &&& ({
                            let ps = old(self).proposals@;
                            let pi = proposal_index(ps, proposal_id);
                            let p = ps[pi];
                            let q = final(self).proposals@[pi];
                            &&& final(self).proposals@ == ps.update(pi, q)
                            &&& q.signatures@ == p.signatures@.push(
                                (ProposalSignature { guardian_id, signature_time: now }),
                            )
                            &&& q.signatures_count == p.signatures_count + 1
                            &&& q == (TransactionProposal {
                                signatures_count: q.signatures_count,
                                signatures: q.signatures,
                                ..p
                            })
                        })
                        &&& *final(self) == (MultiSigWallet {
                            proposals: final(self).proposals,
                            ..*old(self)
                        })
                    },
                    Err(e) => verdict == Some(e) && *final(self) == *old(self),
                }
            }),
    {
        let pi = match self.find_proposal(proposal_id) {
            None => {
                return Err(WalletError::InvalidOperation);
            },
            Some(pi) => {
                proof {
                    lemma_proposal_index_unique(self, pi as int, proposal_id);
                }
                pi
            },
        };
        if !matches!(self.proposals[pi].status, ProposalStatus::Pending) {
            return Err(WalletError::InvalidOperation);
        }
        let gi = match self.find_guardian(guardian_id) {
            None => {
                return Err(WalletError::InvalidGuardian);
            },
            Some(gi) => {
                proof {
                    lemma_guardian_index_unique(self, gi as int, guardian_id);
                }
                gi
            },
        };
        if !self.guardians[gi].is_active {
            return Err(WalletError::InactiveGuardian);
        }
        if timestamp > now + 60 {
            return Err(WalletError::FutureTimestamp);
        }
        if timestamp < now - 300 {
            return Err(WalletError::ExpiredTimestamp);
        }
        match &self.guardians[gi].webauthn_pubkey {
            Some(key) => {
                let expected = build_approve_message(
                    proposal_id,
                    guardian_id,
                    timestamp,
                    key.as_slice(),
                );
                match check_signature_bridge(instruction, key.as_slice(), &expected, message) {
                    Ok(()) => {},
                    Err(e) => {
                        return Err(e);
                    },
                }
            },
            None => {},
        }
        if self.proposals[pi].find_signature(guardian_id).is_some() {
            return Err(WalletError::InvalidOperation);
        }
        let signature = ProposalSignature { guardian_id, signature_time: now };
        self.proposals[pi].signatures.push(signature);
        self.proposals[pi].signatures_count = self.proposals[pi].signatures_count + 1;
        proof {
            let ps = final(self).proposals@;
            let os = old(self).proposals@;
            let t = pi as int;
            assert(ps =~= os.update(t, ps[t]));
            assert forall|i: int| 0 <= i < ps.len() implies (#[trigger] ps[i]).wf() by {
                if i != t {
                    assert(ps[i] == os[i]);
                } else {
                    let sigs = ps[t].signatures@;
                    assert forall|a: int, b: int| 0 <= a < b < sigs.len() implies sigs[a].guardian_id
                        != sigs[b].guardian_id by {
                        if b == sigs.len() - 1 {
                            assert(!os[t].has_approval(guardian_id));
                            assert(os[t].signatures@[a].guardian_id != guardian_id);
                        }
                    }
                }
            }
            assert forall|i: int, j: int| 0 <= i < j < ps.len() implies ps[i].proposal_id
                != ps[j].proposal_id by {
                assert(ps[i].proposal_id == os[i].proposal_id);
                assert(ps[j].proposal_id == os[j].proposal_id);
            }
        }
        Ok(())
    }

    /// Records one guardian's veto: a pending proposal becomes `Rejected`
    /// unconditionally once the guardian passes the same gate as for an
    /// approval, against the canonical reject binding.
    pub fn reject_proposal(
        &mut self,
        proposal_id: u64,
        guardian_id: u64,
        timestamp: i64,
        message: &String,
        instruction: Option<&VerificationInstruction>,
        now: i64,
    ) -> (r: Result<(), WalletError>)
        requires
            old(self).wf(),
            now <= i64::MAX - 60,
            now >= i64::MIN + 300,
        ensures
            final(self).wf(),
            ({
                let verdict = reject_proposal_error(
                    *old(self),
                    proposal_id,
                    guardian_id,
                    timestamp,
                    message@,
                    match instruction {
                        Some(ix) => Some(*ix),
                        None => None,
                    },
                    now,
                );
                match r {
                    Ok(()) => {
                        &&& verdict is None
                        &&& ({
                            let ps = old(self).proposals@;
                            let pi = proposal_index(ps, proposal_id);
                            let p = ps[pi];
                            &&& final(self).proposals@ == ps.update(
                                pi,
                                (TransactionProposal { status: ProposalStatus::Rejected, ..p }),
                            )
                        })
                        &&& *final(self) == (MultiSigWallet {
                            proposals: final(self).proposals,
                            ..*old(self)
                        })
                    },
                    Err(e) => verdict == Some(e) && *final(self) == *old(self),
                }
            }),
    {
        let pi = match self.find_proposal(proposal_id) {
            None => {
                return Err(WalletError::InvalidOperation);
            },
            Some(pi) => {
                proof {
                    lemma_proposal_index_unique(self, pi as int, proposal_id);
                }
                pi
            },
        };
        if !matches!(self.proposals[pi].status, ProposalStatus::Pending) {
            return Err(WalletError::InvalidOperation);
        }
        let gi = match self.find_guardian(guardian_id) {
            None => {
                return Err(WalletError::InvalidGuardian);
            },
            Some(gi) => {
                proof {
                    lemma_guardian_index_unique(self, gi as int, guardian_id);
                }
                gi
            },
        };
        if !self.guardians[gi].is_active {
            return Err(WalletError::InactiveGuardian);
        }
        if timestamp > now + 60 {
            return Err(WalletError::FutureTimestamp);
        }
        if timestamp < now - 300 {
            return Err(WalletError::ExpiredTimestamp);
        }
        match &self.guardians[gi].webauthn_pubkey {
            Some(key) => {
                let expected = build_reject_message(
                    proposal_id,
                    guardian_id,
                    timestamp,
                    key.as_slice(),
                );
                match check_signature_bridge(instruction, key.as_slice(), &expected, message) {
                    Ok(()) => {},
                    Err(e) => {
                        return Err(e);
                    },
                }
            },
            None => {},
        }
        self.proposals[pi].status = ProposalStatus::Rejected;
        proof {
            let ps = final(self).proposals@;
            let os = old(self).proposals@;
            let t = pi as int;
            assert(ps =~= os.update(t, (TransactionProposal {
                status: ProposalStatus::Rejected,
                ..os[t]
            })));
            assert forall|i: int| 0 <= i < ps.len() implies (#[trigger] ps[i]).wf() by {
                if i != t {
                    assert(ps[i] == os[i]);
                } else {
                    assert(os[t].wf());
                }
            }
            assert forall|i: int, j: int| 0 <= i < j < ps.len() implies ps[i].proposal_id
                != ps[j].proposal_id by {
                assert(ps[i].proposal_id == os[i].proposal_id);
                assert(ps[j].proposal_id == os[j].proposal_id);
            }
        }
        Ok(())
    }

    /// Executes a pending proposal that has gathered at least the number
    /// of approvals snapshotted at its creation: moves the amount from the
    /// wallet to the destination with checked arithmetic, marks the
    /// proposal `Executed`, records the execution time, and advances the
    /// wallet's transaction nonce by exactly one.
    pub fn execute_proposal(
        &mut self,
        proposal_id: u64,
        destination: &mut LedgerAccount,
        now: i64,
    ) -> (r: Result<(), WalletError>)
        requires
            old(self).wf(),
            old(self).transaction_nonce < u64::MAX,
        ensures
            final(self).wf(),
            ({
                let verdict = execute_proposal_error(*old(self), proposal_id, *old(destination));
                match r {
                    Ok(()) => {
                        &&& verdict is None
                        &&& ({
                            let ps = old(self).proposals@;
                            let pi = proposal_index(ps, proposal_id);
                            let p = ps[pi];
                            let amount = p.params.amount->0;
                            &&& final(self).proposals@ == ps.update(
                                pi,
                                (TransactionProposal {
                                    status: ProposalStatus::Executed,
                                    executed_at: Some(now),
                                    ..p
                                }),
                            )
                            &&& final(self).lamports == old(self).lamports - amount
                            &&& final(destination).lamports == old(destination).lamports + amount
                            &&& final(destination).address == old(destination).address
                            &&& final(self).transaction_nonce == old(self).transaction_nonce + 1
                            &&& final(self).last_transaction_timestamp == now
                        })
                        &&& *final(self) == (MultiSigWallet {
                            proposals: final(self).proposals,
                            lamports: final(self).lamports,
                            transaction_nonce: final(self).transaction_nonce,
                            last_transaction_timestamp: final(self).last_transaction_timestamp,
                            ..*old(self)
                        })
                    },
                    Err(e) => {
                        &&& verdict == Some(e)
                        &&& *final(self) == *old(self)
                        &&& *final(destination) == *old(destination)
                    },
                }
            }),
    {
        let pi = match self.find_proposal(proposal_id) {
            None => {
                return Err(WalletError::InvalidOperation);
            },
            Some(pi) => {
                proof {
                    lemma_proposal_index_unique(self, pi as int, proposal_id);
                }
                pi
            },
        };
        if !matches!(self.proposals[pi].status, ProposalStatus::Pending) {
            return Err(WalletError::InvalidOperation);
        }
        if self.proposals[pi].signatures_count < self.proposals[pi].required_signatures {
            return Err(WalletError::InvalidOperation);
        }
        let transfer = String::from_str("transfer");
        if !(self.proposals[pi].action == transfer) {
            return Err(WalletError::UnsupportedAction);
        }
        let amount = match &self.proposals[pi].params.destination {
            None => {
                return Err(WalletError::InvalidOperation);
            },
            Some(d) => {
                if !(*d == destination.address) {
                    return Err(WalletError::InvalidOperation);
                }
                match self.proposals[pi].params.amount {
                    None => {
                        return Err(WalletError::InvalidOperation);
                    },
                    Some(amount) => amount,
                }
            },
        };
        let credited = match destination.lamports.checked_add(amount) {
            None => {
                return Err(WalletError::ArithmeticOverflow);
            },
            Some(credited) => credited,
        };
        let debited = match self.lamports.checked_sub(amount) {
            None => {
                return Err(WalletError::InsufficientFunds);
            },
            Some(debited) => debited,
        };
        destination.lamports = credited;
        self.lamports = debited;
        self.proposals[pi].status = ProposalStatus::Executed;
        self.proposals[pi].executed_at = Some(now);
        self.transaction_nonce = self.transaction_nonce + 1;
        self.last_transaction_timestamp = now;
        proof {
            let ps = final(self).proposals@;
            let os = old(self).proposals@;
            let t = pi as int;
            assert(ps =~= os.update(t, (TransactionProposal {
                status: ProposalStatus::Executed,
                executed_at: Some(now),
                ..os[t]
            })));
            assert forall|i: int| 0 <= i < ps.len() implies (#[trigger] ps[i]).wf() by {
                if i != t {
                    assert(ps[i] == os[i]);
                } else {
                    assert(os[t].wf());
                }
            }
            assert forall|i: int, j: int| 0 <= i < j < ps.len() implies ps[i].proposal_id
                != ps[j].proposal_id by {
                assert(ps[i].proposal_id == os[i].proposal_id);
                assert(ps[j].proposal_id == os[j].proposal_id);
            }
        }
        Ok(())
    }
}

} // verus!
