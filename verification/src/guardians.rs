//! Guardian registry operations: adding, removing, (de)activating a
//! guardian, and the proof-gated ownership recovery.
//!
//! Authorization follows one trust model throughout: mutating the
//! registry takes an active owner-guardian acting as caller, except that
//! the very first guardian of a fresh wallet is added by the wallet's
//! creation context, when nobody could authorize yet.  The owner flag
//! itself moves only through the recovery protocol.

use vstd::prelude::*;
use crate::digest::{sha256, sha256_of};
use crate::encode::bytes_eq;
use crate::errors::WalletError;
use crate::state::{
    Guardian, MultiSigWallet, guardian_at, guardian_index, has_guardian_id, has_owner,
    lemma_guardian_index_unique, lemma_owner_index_unique, owner_index,
};

verus! {

/// The verdict of `add_guardian`: which error it returns, or none.
pub open spec fn add_guardian_error(
    w: MultiSigWallet,
    acting_guardian_id: u64,
    guardian_id: u64,
    name: Seq<u8>,
    is_owner: bool,
    has_key: bool,
) -> Option<WalletError> {
    if w.guardians@.len() > 0 && !has_guardian_id(w.guardians@, acting_guardian_id) {
        Some(WalletError::InvalidGuardian)
    } else if w.guardians@.len() > 0 && !guardian_at(w.guardians@, acting_guardian_id).is_owner {
        Some(WalletError::InvalidOperation)
    } else if w.guardians@.len() > 0 && !guardian_at(w.guardians@, acting_guardian_id).is_active {
        Some(WalletError::InactiveGuardian)
    } else if w.guardian_count >= 8 {
        Some(WalletError::LimitExceeded)
    } else if name.len() > 32 {
        Some(WalletError::NameTooLong)
    } else if is_owner && !has_key {
        Some(WalletError::WebAuthnNotConfigured)
    } else if is_owner && has_owner(w.guardians@) {
        Some(WalletError::InvalidOperation)
    } else if has_guardian_id(w.guardians@, guardian_id) {
        Some(WalletError::InvalidOperation)
    } else {
        None
    }
}

/// The verdict of `remove_guardian`.
pub open spec fn remove_guardian_error(
    w: MultiSigWallet,
    acting_guardian_id: u64,
    guardian_id: u64,
) -> Option<WalletError> {
    if w.guardians@.len() == 0 {
        Some(WalletError::GuardianError)
    } else if !has_guardian_id(w.guardians@, acting_guardian_id) {
        Some(WalletError::InvalidGuardian)
    } else if !guardian_at(w.guardians@, acting_guardian_id).is_owner {
        Some(WalletError::InvalidOperation)
    } else if !guardian_at(w.guardians@, acting_guardian_id).is_active {
        Some(WalletError::InactiveGuardian)
    } else if !has_guardian_id(w.guardians@, guardian_id) {
        Some(WalletError::InvalidGuardian)
    } else if guardian_at(w.guardians@, guardian_id).is_owner {
        Some(WalletError::InvalidOperation)
    } else {
        None
    }
}

/// The verdict of `update_guardian_status`.
pub open spec fn update_guardian_status_error(
    w: MultiSigWallet,
    acting_guardian_id: u64,
    guardian_id: u64,
) -> Option<WalletError> {
    if !has_guardian_id(w.guardians@, acting_guardian_id) {
        Some(WalletError::InvalidGuardian)
    } else if !guardian_at(w.guardians@, acting_guardian_id).is_owner {
        Some(WalletError::InvalidOperation)
    } else if !guardian_at(w.guardians@, acting_guardian_id).is_active {
        Some(WalletError::InactiveGuardian)
    } else if !has_guardian_id(w.guardians@, guardian_id) {
        Some(WalletError::InvalidGuardian)
    } else {
        None
    }
}

/// The verdict of `recover_access_by_guardian`.  The recovery proof
/// authorizes the handover exactly when its digest equals the stored one.
pub open spec fn recover_access_error(
    w: MultiSigWallet,
    old_guardian_id: u64,
    new_guardian_id: u64,
    recovery_proof: Seq<u8>,
) -> Option<WalletError> {
    if !has_guardian_id(w.guardians@, old_guardian_id) {
        Some(WalletError::InvalidGuardian)
    } else if !guardian_at(w.guardians@, old_guardian_id).is_owner {
        Some(WalletError::InvalidOperation)
    } else if !guardian_at(w.guardians@, old_guardian_id).is_active {
        Some(WalletError::InactiveGuardian)
    } else if !has_guardian_id(w.guardians@, new_guardian_id) {
        Some(WalletError::InvalidGuardian)
    } else if sha256_of(recovery_proof) != guardian_at(
        w.guardians@,
        old_guardian_id,
    ).recovery_hash@ {
        Some(WalletError::InvalidRecoveryKey)
    } else {
        None
    }
}

impl MultiSigWallet {
    /// Registers a guardian.  The caller must be an active owner-guardian
    /// unless the registry is still empty; the registry must have room;
    /// the name fits 32 bytes; an owner guardian must bring a signing key
    /// and must not coexist with another owner; the identifier must be
    /// fresh.  The stored `recovery_hash` is the digest of the presented
    /// proof; the proof itself is not persisted.
    pub fn add_guardian(
        &mut self,
        acting_guardian_id: u64,
        guardian_id: u64,
        guardian_name: Vec<u8>,
        recovery_hash_intermediate: &Vec<u8>,
        is_owner: bool,
        webauthn_pubkey: Option<Vec<u8>>,
    ) -> (r: Result<(), WalletError>)
        requires
            old(self).wf(),
            recovery_hash_intermediate@.len() == 32,
            (webauthn_pubkey matches Some(k) ==> k@.len() == 33),
        ensures
            final(self).wf(),
            ({
                let verdict = add_guardian_error(
                    *old(self),
                    acting_guardian_id,
                    guardian_id,
                    guardian_name@,
                    is_owner,
                    webauthn_pubkey is Some,
                );
                match r {
                    Ok(()) => {
                        &&& verdict is None
                        &&& final(self).guardians@.len() == old(self).guardians@.len() + 1
                        &&& final(self).guardians@.drop_last() == old(self).guardians@
                        &&& ({
                            let g = final(self).guardians@.last();
                            &&& g.guardian_id == guardian_id
                            &&& g.name == guardian_name
                            &&& g.is_active
                            &&& g.is_owner == is_owner
                            &&& g.recovery_hash@ == sha256_of(recovery_hash_intermediate@)
                            &&& g.webauthn_pubkey == webauthn_pubkey
                        })
                        &&& final(self).guardian_count == old(self).guardian_count + 1
                        &&& has_owner(final(self).guardians@) == (is_owner || has_owner(
                            old(self).guardians@,
                        ))
                        &&& *final(self) == (MultiSigWallet {
                            guardian_count: final(self).guardian_count,
                            guardians: final(self).guardians,
                            ..*old(self)
                        })
                    },
                    Err(e) => verdict == Some(e) && *final(self) == *old(self),
                }
            }),
    {
        if self.guardians.len() > 0 {
            let acting = match self.find_guardian(acting_guardian_id) {
                None => {
                    return Err(WalletError::InvalidGuardian);
                },
                Some(ai) => {
                    proof {
                        lemma_guardian_index_unique(self, ai as int, acting_guardian_id);
                    }
                    ai
                },
            };
            if !self.guardians[acting].is_owner {
                return Err(WalletError::InvalidOperation);
            }
            if !self.guardians[acting].is_active {
                return Err(WalletError::InactiveGuardian);
            }
        }
        if self.guardian_count >= 8 {
            return Err(WalletError::LimitExceeded);
        }
        if guardian_name.len() > 32 {
            return Err(WalletError::NameTooLong);
        }
        if is_owner && webauthn_pubkey.is_none() {
            return Err(WalletError::WebAuthnNotConfigured);
        }
        if is_owner {
            match self.find_owner() {
                Some(oi) => {
                    proof {
                        lemma_owner_index_unique(self, oi as int);
                    }
                    return Err(WalletError::InvalidOperation);
                },
                None => {},
            }
        }
        match self.find_guardian(guardian_id) {
            Some(gi) => {
                proof {
                    lemma_guardian_index_unique(self, gi as int, guardian_id);
                }
                return Err(WalletError::InvalidOperation);
            },
            None => {},
        }
        let recovery_hash = sha256(recovery_hash_intermediate.as_slice());
        let guardian = Guardian {
            guardian_id,
            name: guardian_name,
            is_active: true,
            is_owner,
            recovery_hash,
            webauthn_pubkey,
        };
        self.guardians.push(guardian);
        self.guardian_count = self.guardian_count + 1;
        proof {
            let gs = final(self).guardians@;
            let os = old(self).guardians@;
            assert(gs.drop_last() =~= os);
            assert forall|i: int, j: int| 0 <= i < j < gs.len() implies gs[i].guardian_id
                != gs[j].guardian_id by {
                if j == gs.len() - 1 {
                    assert(!has_guardian_id(os, guardian_id));
                    assert(os[i].guardian_id != guardian_id);
                }
            }
            assert forall|i: int, j: int|
                0 <= i < gs.len() && 0 <= j < gs.len() && gs[i].is_owner
                    && gs[j].is_owner implies i == j by {
                if i == gs.len() - 1 && j < gs.len() - 1 {
                    assert(has_owner(os));
                }
                if j == gs.len() - 1 && i < gs.len() - 1 {
                    assert(has_owner(os));
                }
            }
            assert forall|i: int| 0 <= i < gs.len() implies (#[trigger] gs[i]).wf() by {
                if i < gs.len() - 1 {
                    assert(os[i].wf());
                }
            }
            if is_owner {
                assert(gs[gs.len() - 1].is_owner);
            } else {
                if has_owner(os) {
                    let i = owner_index(os);
                    assert(gs[i].is_owner);
                }
                assert forall|i: int|
                    0 <= i < gs.len() && gs[i].is_owner implies has_owner(os) by {
                    assert(os[i].is_owner);
                }
            }
        }
        Ok(())
    }

    /// Deletes a guardian and reclaims its record.  The caller must be an
    /// active owner-guardian; the owner-guardian itself cannot be removed,
    /// so ownership leaves only through the recovery protocol.
    pub fn remove_guardian(&mut self, acting_guardian_id: u64, guardian_id: u64) -> (r: Result<
        (),
        WalletError,
    >)
        requires
            old(self).wf(),
        ensures
            final(self).wf(),
            ({
                let verdict = remove_guardian_error(*old(self), acting_guardian_id, guardian_id);
                match r {
                    Ok(()) => {
                        &&& verdict is None
                        &&& final(self).guardians@ == old(self).guardians@.remove(
                            guardian_index(old(self).guardians@, guardian_id),
                        )
                        &&& final(self).guardian_count == old(self).guardian_count - 1
                        &&& has_owner(final(self).guardians@) == has_owner(old(self).guardians@)
                        &&& *final(self) == (MultiSigWallet {
                            guardian_count: final(self).guardian_count,
                            guardians: final(self).guardians,
                            ..*old(self)
                        })
                    },
                    Err(e) => verdict == Some(e) && *final(self) == *old(self),
                }
            }),
    {
        if self.guardians.len() == 0 {
            return Err(WalletError::GuardianError);
        }
        let acting = match self.find_guardian(acting_guardian_id) {
            None => {
                return Err(WalletError::InvalidGuardian);
            },
            Some(ai) => {
                proof {
                    lemma_guardian_index_unique(self, ai as int, acting_guardian_id);
                }
                ai
            },
        };
        if !self.guardians[acting].is_owner {
            return Err(WalletError::InvalidOperation);
        }
        if !self.guardians[acting].is_active {
            return Err(WalletError::InactiveGuardian);
        }
        let target = match self.find_guardian(guardian_id) {
            None => {
                return Err(WalletError::InvalidGuardian);
            },
            Some(gi) => {
                proof {
                    lemma_guardian_index_unique(self, gi as int, guardian_id);
                }
                gi
            },
        };
        if self.guardians[target].is_owner {
            return Err(WalletError::InvalidOperation);
        }
        self.guardians.remove(target);
        self.guardian_count = self.guardian_count - 1;
        proof {
            let gs = final(self).guardians@;
            let os = old(self).guardians@;
            let t = target as int;
            assert(gs =~= os.subrange(0, t) + os.subrange(t + 1, os.len() as int));
            assert forall|i: int| 0 <= i < gs.len() implies (#[trigger] gs[i]).wf() by {
                if i < t {
                    assert(gs[i] == os[i]);
                } else {
                    assert(gs[i] == os[i + 1]);
                }
            }
            assert forall|i: int, j: int| 0 <= i < j < gs.len() implies gs[i].guardian_id
                != gs[j].guardian_id by {
                let io = if i < t { i } else { i + 1 };
                let jo = if j < t { j } else { j + 1 };
                assert(gs[i] == os[io]);
                assert(gs[j] == os[jo]);
            }
            assert forall|i: int, j: int|
                0 <= i < gs.len() && 0 <= j < gs.len() && gs[i].is_owner
                    && gs[j].is_owner implies i == j by {
                let io = if i < t { i } else { i + 1 };
                let jo = if j < t { j } else { j + 1 };
                assert(gs[i] == os[io]);
                assert(gs[j] == os[jo]);
            }
            if has_owner(os) {
                let i = owner_index(os);
                let im = if i < t { i } else { i - 1 };
                assert(gs[im] == os[i]);
                assert(gs[im].is_owner);
            }
            assert forall|i: int| 0 <= i < gs.len() && gs[i].is_owner implies has_owner(os) by {
                let io = if i < t { i } else { i + 1 };
                assert(os[io].is_owner);
            }
        }
        Ok(())
    }

    /// Activates or deactivates a guardian.  The caller must be an active
    /// owner-guardian; an inactive guardian can neither approve nor reject
    /// nor anchor a recovery.  The owner flag is untouched.
    pub fn update_guardian_status(
        &mut self,
        acting_guardian_id: u64,
        guardian_id: u64,
        is_active: bool,
    ) -> (r: Result<(), WalletError>)
        requires
            old(self).wf(),
        ensures
            final(self).wf(),
            ({
                let verdict = update_guardian_status_error(
                    *old(self),
                    acting_guardian_id,
                    guardian_id,
                );
                match r {
                    Ok(()) => {
                        &&& verdict is None
                        &&& final(self).guardians@ == old(self).guardians@.update(
                            guardian_index(old(self).guardians@, guardian_id),
                            (Guardian {
                                is_active,
                                ..guardian_at(old(self).guardians@, guardian_id)
                            }),
                        )
                        &&& has_owner(final(self).guardians@) == has_owner(old(self).guardians@)
                        &&& *final(self) == (MultiSigWallet {
                            guardians: final(self).guardians,
                            ..*old(self)
                        })
                    },
                    Err(e) => verdict == Some(e) && *final(self) == *old(self),
                }
            }),
    {
        let acting = match self.find_guardian(acting_guardian_id) {
            None => {
                return Err(WalletError::InvalidGuardian);
            },
            Some(ai) => {
                proof {
                    lemma_guardian_index_unique(self, ai as int, acting_guardian_id);
                }
                ai
            },
        };
        if !self.guardians[acting].is_owner {
            return Err(WalletError::InvalidOperation);
        }
        if !self.guardians[acting].is_active {
            return Err(WalletError::InactiveGuardian);
        }
        let target = match self.find_guardian(guardian_id) {
            None => {
                return Err(WalletError::InvalidGuardian);
            },
            Some(gi) => {
                proof {
                    lemma_guardian_index_unique(self, gi as int, guardian_id);
                }
                gi
            },
        };
        self.guardians[target].is_active = is_active;
        proof {
            let gs = final(self).guardians@;
            let os = old(self).guardians@;
            let t = target as int;
            assert forall|i: int| 0 <= i < gs.len() implies (#[trigger] gs[i]).wf() by {
                if i != t {
                    assert(gs[i] == os[i]);
                } else {
                    assert(os[t].wf());
                }
            }
            assert forall|i: int, j: int| 0 <= i < j < gs.len() implies gs[i].guardian_id
                != gs[j].guardian_id by {
                assert(gs[i].guardian_id == os[i].guardian_id);
                assert(gs[j].guardian_id == os[j].guardian_id);
            }
            assert forall|i: int, j: int|
                0 <= i < gs.len() && 0 <= j < gs.len() && gs[i].is_owner
                    && gs[j].is_owner implies i == j by {
                assert(gs[i].is_owner == os[i].is_owner);
                assert(gs[j].is_owner == os[j].is_owner);
            }
            if has_owner(os) {
                let i = owner_index(os);
                assert(gs[i].is_owner);
            }
            assert forall|i: int| 0 <= i < gs.len() && gs[i].is_owner implies has_owner(os) by {
                assert(os[i].is_owner);
            }
        }
        Ok(())
    }

    /// Hands wallet ownership from one guardian to another.  The presented
    /// proof must digest to the old owner-guardian's stored recovery hash;
    /// then the owner flag and the signing key move atomically from the
    /// old guardian to the new one, and the recovery nonce advances.
    /// An incorrect proof changes nothing.
    pub fn recover_access_by_guardian(
        &mut self,
        old_guardian_id: u64,
        new_guardian_id: u64,
        recovery_hash_intermediate: &Vec<u8>,
        new_webauthn_pubkey: Vec<u8>,
    ) -> (r: Result<(), WalletError>)
        requires
            old(self).wf(),
            recovery_hash_intermediate@.len() == 32,
            new_webauthn_pubkey@.len() == 33,
            old(self).recovery_nonce < u64::MAX,
        ensures
            final(self).wf(),
            ({
                let verdict = recover_access_error(
                    *old(self),
                    old_guardian_id,
                    new_guardian_id,
                    recovery_hash_intermediate@,
                );
                match r {
                    Ok(()) => {
                        &&& verdict is None
                        &&& ({
                            let os = old(self).guardians@;
                            let oi = guardian_index(os, old_guardian_id);
                            let ni = guardian_index(os, new_guardian_id);
                            let cleared = (Guardian {
                                is_owner: false,
                                webauthn_pubkey: None,
                                ..os[oi]
                            });
                            let promoted = (Guardian {
                                is_owner: true,
                                webauthn_pubkey: Some(new_webauthn_pubkey),
                                ..os.update(oi, cleared)[ni]
                            });
                            final(self).guardians@ == os.update(oi, cleared).update(ni, promoted)
                        })
                        &&& final(self).recovery_nonce == old(self).recovery_nonce + 1
                        &&& has_owner(final(self).guardians@)
                        &&& *final(self) == (MultiSigWallet {
                            recovery_nonce: final(self).recovery_nonce,
                            guardians: final(self).guardians,
                            ..*old(self)
                        })
                    },
                    Err(e) => verdict == Some(e) && *final(self) == *old(self),
                }
            }),
    {
        let old_idx = match self.find_guardian(old_guardian_id) {
            None => {
                return Err(WalletError::InvalidGuardian);
            },
            Some(i) => {
                proof {
                    lemma_guardian_index_unique(self, i as int, old_guardian_id);
                }
                i
            },
        };
        if !self.guardians[old_idx].is_owner {
            return Err(WalletError::InvalidOperation);
        }
        if !self.guardians[old_idx].is_active {
            return Err(WalletError::InactiveGuardian);
        }
        let new_idx = match self.find_guardian(new_guardian_id) {
            None => {
                return Err(WalletError::InvalidGuardian);
            },
            Some(i) => {
                proof {
                    lemma_guardian_index_unique(self, i as int, new_guardian_id);
                }
                i
            },
        };
        let digest = sha256(recovery_hash_intermediate.as_slice());
        if !bytes_eq(digest.as_slice(), self.guardians[old_idx].recovery_hash.as_slice()) {
            return Err(WalletError::InvalidRecoveryKey);
        }
        self.guardians[old_idx].is_owner = false;
        self.guardians[old_idx].webauthn_pubkey = None;
        self.guardians[new_idx].is_owner = true;
        self.guardians[new_idx].webauthn_pubkey = Some(new_webauthn_pubkey);
        self.recovery_nonce = self.recovery_nonce + 1;
        proof {
            let gs = final(self).guardians@;
            let os = old(self).guardians@;
            let oi = old_idx as int;
            let ni = new_idx as int;
            assert forall|i: int| 0 <= i < gs.len() implies (#[trigger] gs[i]).wf() by {
                if i != oi && i != ni {
                    assert(gs[i] == os[i]);
                }
            }
            assert forall|i: int, j: int| 0 <= i < j < gs.len() implies gs[i].guardian_id
                != gs[j].guardian_id by {
                assert(gs[i].guardian_id == os[i].guardian_id);
                assert(gs[j].guardian_id == os[j].guardian_id);
            }
            assert forall|i: int, j: int|
                0 <= i < gs.len() && 0 <= j < gs.len() && gs[i].is_owner
                    && gs[j].is_owner implies i == j by {
                if i != ni {
                    assert(gs[i].is_owner ==> os[i].is_owner);
                }
                if j != ni {
                    assert(gs[j].is_owner ==> os[j].is_owner);
                }
            }
            assert(gs[ni].is_owner);
        }
        Ok(())
    }
}

} // verus!
