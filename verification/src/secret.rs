use crate::errors::ContractError;
use sha3::{Digest, Keccak256};
use vstd::prelude::*;

verus! {

/// The Keccak-256 digest of a string's bytes; it depends on the characters
/// of the input alone.
pub uninterp spec fn keccak256_of(s: Seq<char>) -> Seq<u8>;

/// Relies on sha3's Keccak256 through the Digest trait: a 32-byte digest
/// computed from the input bytes alone.
#[verifier::external_body]
fn keccak256_str(s: &str) -> (r: Vec<u8>)
    ensures
        r@ == keccak256_of(s@),
        r@.len() == 32,
{
    let mut hasher = Keccak256::new();
    hasher.update(s.as_bytes());
    hasher.finalize().to_vec()
}

/// Accepts the secret exactly when its Keccak-256 digest equals the stored
/// hashlock.
pub fn only_valid_secret(secret: String, hashlock: Vec<u8>) -> (r: Result<(), ContractError>)
    ensures
        r is Ok <==> keccak256_of(secret@) == hashlock@,
        r is Err ==> r->Err_0 == ContractError::InvalidSecret,
{
    let computed_hash = keccak256_str(secret.as_str());
    let matches_stored = computed_hash == hashlock;
    proof {
        if matches_stored {
            assert(computed_hash@ =~= hashlock@);
        } else {
            if computed_hash@ == hashlock@ {
                assert(forall|i: int|
                    0 <= i < computed_hash.len() ==> #[trigger] computed_hash[i] == hashlock[i]);
                assert(false);
            }
        }
    }
    if matches_stored {
        Ok(())
    } else {
        Err(ContractError::InvalidSecret)
    }
}

} // verus!
