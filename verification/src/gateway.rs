//! The asset transfer gateway: the transfers that the market asks of the asset ledger.
//!
//! The market never moves assets itself. A request that is admitted names one transfer;
//! the caller makes it on the ledger and the ledger's answer ends the request.

use vstd::prelude::*;
use crate::error::{lending, LendingError, RequestError};
use crate::pubkey::Pubkey;
use crate::state::Reserve;

verus! {

/// The seeds from which a reserve's authority over its holding records is derived.
#[derive(Clone, Copy, Debug, PartialEq, Eq)]
pub struct AuthoritySeeds {
    pub lending_market: Pubkey,
    pub collateral_mint: Pubkey,
    pub liquidity_mint: Pubkey,
    pub bump: u8,
}

/// A transfer that a reserve authorises by its derived authority.
#[derive(Clone, Copy, Debug, PartialEq, Eq)]
pub struct TokenTransferParams {
    /// The holding record that pays.
    pub source: Pubkey,
    /// The holding record that receives.
    pub destination: Pubkey,
    /// The reserve whose derived authority controls `source`.
    pub authority: Pubkey,
    /// The ledger that moves the assets.
    pub token_program: Pubkey,
    /// The seeds of that authority.
    pub authority_signer_seeds: AuthoritySeeds,
    /// How much is moved.
    pub amount: u64,
}

/// A transfer that the signer of the request authorises.
#[derive(Clone, Copy, Debug, PartialEq, Eq)]
pub struct TokenTransferParamsWithoutSeed {
    /// The holding record that pays.
    pub source: Pubkey,
    /// The holding record that receives.
    pub destination: Pubkey,
    /// The principal who signed the request.
    pub authority: Pubkey,
    /// The ledger that moves the assets.
    pub token_program: Pubkey,
    /// How much is moved.
    pub amount: u64,
}

impl Reserve {
    /// The seeds of the reserve's derived authority.
    pub open spec fn authority_seeds(&self) -> AuthoritySeeds {
        AuthoritySeeds {
            lending_market: self.lending_market,
            collateral_mint: self.collateral_mint,
            liquidity_mint: self.liquidity_mint,
            bump: self.bump,
        }
    }
}

/// How a request ends once the ledger has answered the transfer that it named: a transfer
/// that the ledger refused fails the request with `TokenTransferFailed`.
pub fn settle_transfer(ledger_accepted: bool) -> (r: Result<(), RequestError>)
    ensures
        r == if ledger_accepted {
            Ok::<(), RequestError>(())
        } else {
            Err::<(), RequestError>(lending(LendingError::TokenTransferFailed))
        },
{
    if ledger_accepted {
        Ok(())
    } else {
        Err(RequestError::Lending(LendingError::TokenTransferFailed))
    }
}

} // verus!
