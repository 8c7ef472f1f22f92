//! The two conversions offered to the host.

use vstd::prelude::*;
use crate::encoding::{hex_encode, hex_of};

verus! {

/// The number of bytes each public-input word occupies at the front of a
/// proof buffer.
pub const WORD_SIZE: usize = 32;

/// Strips the first `num_inputs` 32-byte public-input words off
/// `proof_data` and returns the remainder as a lowercase hex string; fails
/// when the buffer is too short to hold that many words.
pub fn convert_proof(proof_data: &[u8], num_inputs: usize) -> (r: Result<String, String>)
    ensures
        num_inputs * WORD_SIZE <= proof_data@.len() ==> (r matches Ok(s) && s@ == hex_of(
            proof_data@.subrange(num_inputs * WORD_SIZE, proof_data@.len() as int),
        )),
        num_inputs * WORD_SIZE > proof_data@.len() ==> (r matches Err(e) && e@
            == "Prova muito curta para a quantidade de inputs públicos"@),
{
    let data_len = proof_data.len();
    let total_pub_inputs_len = match num_inputs.checked_mul(WORD_SIZE) {
        Some(n) => n,
        None => {
            proof {
                assert(num_inputs * WORD_SIZE > usize::MAX >= data_len);
            }
            return Err(String::from_str(
                "Prova muito curta para a quantidade de inputs públicos",
            ));
        },
    };
    if data_len < total_pub_inputs_len {
        return Err(String::from_str("Prova muito curta para a quantidade de inputs públicos"));
    }
    let proof_without_pubs = vstd::slice::slice_subrange(
        proof_data,
        total_pub_inputs_len,
        data_len,
    );
    Ok(hex_encode(proof_without_pubs))
}

/// Finishes the verification-key conversion from the outcome of the host
/// project's key parser: the Solidity-byte serialization of a key that
/// parsed is returned as a lowercase hex string, and a parse error is
/// passed through behind a fixed message prefix.
pub fn convert_verification_key(parsed: Result<Vec<u8>, String>) -> (r: Result<String, String>)
    ensures
        parsed matches Ok(solidity_bytes) ==> (r matches Ok(s) && s@ == hex_of(
            solidity_bytes@,
        )),
        parsed matches Err(msg) ==> (r matches Err(e) && e@ == "Erro ao interpretar VK: "@
            + msg@),
{
    match parsed {
        Ok(solidity_bytes) => Ok(hex_encode(solidity_bytes.as_slice())),
        Err(msg) => Err(
            String::from_str("Erro ao interpretar VK: ").concat(msg.as_str()),
        ),
    }
}

} // verus!
