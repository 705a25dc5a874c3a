//! The signature verification bridge.
//!
//! Every WebAuthn-gated action must be accompanied, earlier in the same
//! atomic batch, by a call to the host's secp256r1 signature-verification
//! precompile.  The precompile itself is trusted to have validated the
//! cryptographic signature; the bridge only checks consistency: the call
//! carries exactly one signature, its public key equals the stored one,
//! and the caller-supplied message equals the canonical binding that the
//! engine reconstructs itself.

use vstd::prelude::*;
use vstd::string::StringExecFns;
use crate::digest::{sha256, sha256_of};
use crate::encode::{
    append_dec_i64, append_dec_u64, append_sol_amount, dec_int, dec_nat, hex_of, sol_amount_chars,
    to_hex,
};
use crate::errors::WalletError;

verus! {

/// The co-submitted instruction, as the host's instruction introspection
/// reports it: the target program's address in canonical text, and the
/// raw payload handed to it.
#[derive(Clone, Debug)]
pub struct VerificationInstruction {
    pub program_id: String,
    pub data: Vec<u8>,
}

/// The address of the host's secp256r1 verification precompile.
pub open spec fn secp256r1_program() -> Seq<char> {
    "Secp256r1SigVerify1111111111111111111111111"@
}

/// What parsing the public key out of a precompile payload yields: the
/// payload must be at least 16 bytes of header, announce exactly one
/// signature in its first byte, and hold a 33-byte key at the offset given
/// little-endian at header bytes 6 and 7.
pub open spec fn secp_pubkey_result(data: Seq<u8>) -> Result<Seq<u8>, WalletError> {
    if data.len() < 16 {
        Err(WalletError::InvalidInstructionData)
    } else if data[0] != 1 {
        Err(WalletError::InvalidSignatureCount)
    } else {
        let off = data[6] + 256 * data[7];
        if data.len() < off + 33 {
            Err(WalletError::InvalidInstructionData)
        } else {
            Ok(data.subrange(off as int, off + 33))
        }
    }
}

/// What parsing the signed message out of a precompile payload yields:
/// its offset and size stand little-endian at header bytes 10..14.
pub open spec fn secp_message_result(data: Seq<u8>) -> Result<Seq<u8>, WalletError> {
    if data.len() < 16 {
        Err(WalletError::InvalidInstructionData)
    } else {
        let off = data[10] + 256 * data[11];
        let size = data[12] + 256 * data[13];
        if data.len() < off + size {
            Err(WalletError::InvalidInstructionData)
        } else {
            Ok(data.subrange(off as int, off + size))
        }
    }
}

/// Extracts the 33-byte public key from a verification precompile payload.
pub fn extract_public_key_from_secp_instruction(data: &[u8]) -> (r: Result<Vec<u8>, WalletError>)
    ensures
        match r {
            Ok(pk) => secp_pubkey_result(data@) == Ok::<Seq<u8>, WalletError>(pk@),
            Err(e) => secp_pubkey_result(data@) == Err::<Seq<u8>, WalletError>(e),
        },
{
    if data.len() < 16 {
        return Err(WalletError::InvalidInstructionData);
    }
    if data[0] != 1 {
        return Err(WalletError::InvalidSignatureCount);
    }
    let off: usize = data[6] as usize + 256 * data[7] as usize;
    if data.len() < 33 || off > data.len() - 33 {
        return Err(WalletError::InvalidInstructionData);
    }
    let mut pk: Vec<u8> = Vec::new();
    let mut i: usize = 0;
    while i < 33
        invariant
            i <= 33,
            off + 33 <= data@.len(),
            off + 33 <= usize::MAX,
            pk@ =~= data@.subrange(off as int, off + i),
        decreases 33 - i,
    {
        pk.push(data[off + i]);
        assert(pk@ =~= data@.subrange(off as int, off + i + 1));
        i += 1;
    }
    Ok(pk)
}

/// Extracts the signed message from a verification precompile payload.
pub fn extract_message_from_secp_instruction(data: &[u8]) -> (r: Result<Vec<u8>, WalletError>)
    ensures
        match r {
            Ok(m) => secp_message_result(data@) == Ok::<Seq<u8>, WalletError>(m@),
            Err(e) => secp_message_result(data@) == Err::<Seq<u8>, WalletError>(e),
        },
{
    if data.len() < 16 {
        return Err(WalletError::InvalidInstructionData);
    }
    let off: usize = data[10] as usize + 256 * data[11] as usize;
    let size: usize = data[12] as usize + 256 * data[13] as usize;
    if size > data.len() || off > data.len() - size {
        return Err(WalletError::InvalidInstructionData);
    }
    let mut m: Vec<u8> = Vec::new();
    let mut i: usize = 0;
    while i < size
        invariant
            i <= size,
            off + size <= data@.len(),
            off + size <= usize::MAX,
            m@ =~= data@.subrange(off as int, off + i),
        decreases size - i,
    {
        m.push(data[off + i]);
        assert(m@ =~= data@.subrange(off as int, off + i + 1));
        i += 1;
    }
    Ok(m)
}

/// The six-character tag of a public key: the first six hex digits of its
/// digest, bound into every canonical message.
pub open spec fn key_tag(key: Seq<u8>) -> Seq<char> {
    hex_of(sha256_of(key)).take(6)
}

/// Computes the six-character tag of a public key.
pub fn pubkey_tag(key: &[u8]) -> (r: String)
    ensures
        r@ == key_tag(key@),
{
    let digest = sha256(key);
    let mut prefix: Vec<u8> = Vec::new();
    prefix.push(digest[0]);
    prefix.push(digest[1]);
    prefix.push(digest[2]);
    let r = to_hex(prefix.as_slice());
    proof {
        assert(prefix@ =~= sha256_of(key@).take(3));
        assert(hex_of(sha256_of(key@).take(3)) =~= hex_of(sha256_of(key@)).take(6));
    }
    r
}

/// The canonical binding for approving a proposal.
pub open spec fn approve_message(
    proposal_id: u64,
    guardian_id: u64,
    timestamp: i64,
    key: Seq<u8>,
) -> Seq<char> {
    "approve:proposal_"@ + dec_nat(proposal_id as nat) + ",guardian_"@ + dec_nat(
        guardian_id as nat,
    ) + ",timestamp:"@ + dec_int(timestamp as int) + ",pubkey:"@ + key_tag(key)
}

/// The canonical binding for rejecting a proposal.
pub open spec fn reject_message(
    proposal_id: u64,
    guardian_id: u64,
    timestamp: i64,
    key: Seq<u8>,
) -> Seq<char> {
    "reject:proposal_"@ + dec_nat(proposal_id as nat) + ",guardian_"@ + dec_nat(
        guardian_id as nat,
    ) + ",timestamp:"@ + dec_int(timestamp as int) + ",pubkey:"@ + key_tag(key)
}

/// The canonical binding for a direct-execute transfer.
pub open spec fn transfer_message(
    amount: u64,
    destination: Seq<char>,
    nonce: u64,
    timestamp: i64,
    key: Seq<u8>,
) -> Seq<char> {
    "transfer:"@ + sol_amount_chars(amount) + "_SOL_to_"@ + destination + ",nonce:"@ + dec_nat(
        nonce as nat,
    ) + ",timestamp:"@ + dec_int(timestamp as int) + ",pubkey:"@ + key_tag(key)
}

/// Builds the canonical approve binding.
pub fn build_approve_message(
    proposal_id: u64,
    guardian_id: u64,
    timestamp: i64,
    key: &[u8],
) -> (r: String)
    ensures
        r@ == approve_message(proposal_id, guardian_id, timestamp, key@),
{
    let mut m = String::new();
    m.append("approve:proposal_");
    append_dec_u64(&mut m, proposal_id);
    m.append(",guardian_");
    append_dec_u64(&mut m, guardian_id);
    m.append(",timestamp:");
    append_dec_i64(&mut m, timestamp);
    m.append(",pubkey:");
    let tag = pubkey_tag(key);
    m.append(tag.as_str());
    m
}

/// Builds the canonical reject binding.
pub fn build_reject_message(
    proposal_id: u64,
    guardian_id: u64,
    timestamp: i64,
    key: &[u8],
) -> (r: String)
    ensures
        r@ == reject_message(proposal_id, guardian_id, timestamp, key@),
{
    let mut m = String::new();
    m.append("reject:proposal_");
    append_dec_u64(&mut m, proposal_id);
    m.append(",guardian_");
    append_dec_u64(&mut m, guardian_id);
    m.append(",timestamp:");
    append_dec_i64(&mut m, timestamp);
    m.append(",pubkey:");
    let tag = pubkey_tag(key);
    m.append(tag.as_str());
    m
}

/// Builds the canonical transfer binding.
pub fn build_transfer_message(
    amount: u64,
    destination: &str,
    nonce: u64,
    timestamp: i64,
    key: &[u8],
) -> (r: String)
    ensures
        r@ == transfer_message(amount, destination@, nonce, timestamp, key@),
{
    let mut m = String::new();
    m.append("transfer:");
    append_sol_amount(&mut m, amount);
    m.append("_SOL_to_");
    m.append(destination);
    m.append(",nonce:");
    append_dec_u64(&mut m, nonce);
    m.append(",timestamp:");
    append_dec_i64(&mut m, timestamp);
    m.append(",pubkey:");
    let tag = pubkey_tag(key);
    m.append(tag.as_str());
    m
}

/// The bridge's verdict over a co-submitted instruction, the stored key,
/// the canonical binding, and the caller-supplied message.
pub open spec fn bridge_error(
    instruction: Option<VerificationInstruction>,
    expected_key: Seq<u8>,
    expected_message: Seq<char>,
    message: Seq<char>,
) -> Option<WalletError> {
    match instruction {
        None => Some(WalletError::InstructionMissing),
        Some(ix) => if ix.program_id@ != secp256r1_program() {
            Some(WalletError::InvalidSignatureVerification)
        } else {
            match secp_pubkey_result(ix.data@) {
                Err(e) => Some(e),
                Ok(pk) => if pk != expected_key {
                    Some(WalletError::PublicKeyMismatch)
                } else if message != expected_message {
                    Some(WalletError::MessageMismatch)
                } else {
                    None
                },
            }
        },
    }
}

/// Checks a co-submitted verification call against the stored key and the
/// reconstructed canonical message.
pub fn check_signature_bridge(
    instruction: Option<&VerificationInstruction>,
    expected_key: &[u8],
    expected_message: &String,
    message: &String,
) -> (r: Result<(), WalletError>)
    ensures
        ({
            let verdict = bridge_error(
                match instruction {
                    Some(ix) => Some(*ix),
                    None => None,
                },
                expected_key@,
                expected_message@,
                message@,
            );
            match r {
                Ok(()) => verdict is None,
                Err(e) => verdict == Some(e),
            }
        }),
{
    let ix = match instruction {
        Some(ix) => ix,
        None => {
            return Err(WalletError::InstructionMissing);
        },
    };
    let expected_program = String::from_str("Secp256r1SigVerify1111111111111111111111111");
    if !(ix.program_id == expected_program) {
        return Err(WalletError::InvalidSignatureVerification);
    }
    let pk = match extract_public_key_from_secp_instruction(ix.data.as_slice()) {
        Ok(pk) => pk,
        Err(e) => {
            return Err(e);
        },
    };
    if !crate::encode::bytes_eq(pk.as_slice(), expected_key) {
        return Err(WalletError::PublicKeyMismatch);
    }
    if !(*message == *expected_message) {
        return Err(WalletError::MessageMismatch);
    }
    Ok(())
}

} // verus!
