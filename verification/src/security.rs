//! Storage of a password digest beside a wallet, guarded by the wallet's
//! owner identity.

use vstd::prelude::*;
use crate::errors::WalletError;
use crate::state::MultiSigWallet;

verus! {

/// A per-wallet security record holding a password digest.
#[derive(Clone, Debug)]
pub struct Security {
    /// Address of the wallet this record belongs to, in canonical text.
    pub wallet: String,
    /// 32-byte digest of the password.
    pub password_hash: Vec<u8>,
}

impl Security {
    /// Creates the security record for a wallet.  Only the wallet's owner
    /// identity may store a password digest.
    pub fn store_password_hash(
        wallet: &MultiSigWallet,
        caller: &String,
        wallet_address: String,
        password_hash: Vec<u8>,
    ) -> (r: Result<Security, WalletError>)
        requires
            password_hash@.len() == 32,
        ensures
            match r {
                Ok(s) => {
                    &&& caller@ == wallet.owner@
                    &&& s.wallet == wallet_address
                    &&& s.password_hash == password_hash
                },
                Err(e) => caller@ != wallet.owner@ && e == WalletError::InvalidOperation,
            },
    {
        if !(*caller == wallet.owner) {
            return Err(WalletError::InvalidOperation);
        }
        Ok(Security { wallet: wallet_address, password_hash })
    }
}

} // verus!
