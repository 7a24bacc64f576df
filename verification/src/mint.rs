use vstd::prelude::*;

use core::str::FromStr;
use solana_pubkey::Pubkey;

use crate::{AccountId, SwapError};

verus! {

/// The 32 account bytes that a base58 account string decodes to, when
/// it decodes to exactly 32 bytes; absent otherwise.
pub uninterp spec fn parsed_account_bytes(s: Seq<char>) -> Option<Seq<u8>>;

/// Relies on solana_pubkey::Pubkey::from_str: a base58 decode into
/// exactly 32 bytes, a function of the string alone, which succeeds
/// exactly when the string is a well-formed base58 encoding of that
/// size; Pubkey::to_bytes hands those bytes back.
#[verifier::external_body]
fn parse_pubkey_bytes(s: &str) -> (r: Option<[u8; 32]>)
    ensures
        (r is Some) == (parsed_account_bytes(s@) is Some),
        r matches Some(b) ==> Option::Some(b@) == parsed_account_bytes(s@),
{
    match Pubkey::from_str(s) {
        Ok(p) => Some(p.to_bytes()),
        Err(_) => None,
    }
}

/// Validate a client-supplied mint string into an account identifier,
/// once at entry; a string that is not a well-formed account key is
/// rejected, never passed further into the engine.
pub fn validate_mint(s: &str) -> (r: Result<AccountId, SwapError>)
    ensures
        (r is Ok) == (parsed_account_bytes(s@) is Some),
        r matches Ok(id) ==> Option::Some(id.bytes@) == parsed_account_bytes(s@),
        r matches Err(e) ==> e == SwapError::InvalidMint,
{
    match parse_pubkey_bytes(s) {
        Option::Some(b) => Ok(AccountId { bytes: b }),
        Option::None => Err(SwapError::InvalidMint),
    }
}

} // verus!
