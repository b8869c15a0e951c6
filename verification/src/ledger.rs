//! What the market reads from the asset ledger's records: holding records and mints.
//!
//! The ledger's own code unpacks the bytes; this module says which bytes it admits and where
//! the fields that the market reads stand in them.

use vstd::prelude::*;
use spl_token::solana_program::program_error::ProgramError;
use spl_token::solana_program::program_pack::Pack;
use crate::bytes::le_value;
use crate::error::RequestError;
use crate::pubkey::Pubkey;

verus! {

/// Bytes of a packed holding record.
pub const TOKEN_ACCOUNT_LEN: usize = 165;

/// Bytes of a packed mint.
pub const TOKEN_MINT_LEN: usize = 82;

/// The ledger's error type. Nothing is read from a value of it.
#[verifier::external_type_specification]
#[verifier::external_body]
pub struct ExProgramError(ProgramError);

/// An asset-holding record of the ledger, as far as the market reads it.
#[derive(Clone, Copy, Debug, PartialEq, Eq)]
pub struct TokenAccount {
    /// The asset that the record holds.
    pub mint: Pubkey,
    /// The authority that controls the record.
    pub owner: Pubkey,
    /// The balance.
    pub amount: u64,
}

/// A mint of the ledger, as far as the market reads it.
#[derive(Clone, Copy, Debug, PartialEq, Eq)]
pub struct TokenMint {
    /// Decimal places of one unit of the asset.
    pub decimals: u8,
}

/// Whether the four bytes at `at` are the tag of an optional field: 0 or 1, then three zeros.
pub open spec fn option_tag_at(data: Seq<u8>, at: int) -> bool {
    &&& data[at] == 0 || data[at] == 1
    &&& data[at + 1] == 0
    &&& data[at + 2] == 0
    &&& data[at + 3] == 0
}

/// Whether the ledger admits the first 165 bytes of `data` as a holding record: the tags of
/// delegate, native reserve and close authority are well formed, and the state is one of
/// the three known.
pub open spec fn token_account_admitted(data: Seq<u8>) -> bool {
    &&& data.len() >= TOKEN_ACCOUNT_LEN
    &&& option_tag_at(data, 72)
    &&& data[108] <= 2
    &&& option_tag_at(data, 109)
    &&& option_tag_at(data, 129)
}

/// The asset of the holding record in `data`.
pub open spec fn token_account_mint(data: Seq<u8>) -> Seq<u8> {
    data.subrange(0, 32)
}

/// The controlling authority of the holding record in `data`.
pub open spec fn token_account_owner(data: Seq<u8>) -> Seq<u8> {
    data.subrange(32, 64)
}

/// The balance of the holding record in `data`.
pub open spec fn token_account_amount(data: Seq<u8>) -> nat {
    le_value(data.subrange(64, 72))
}

/// Whether the ledger admits the first 82 bytes of `data` as a mint: the tags of both
/// authorities are well formed and the initialisation flag is 0 or 1.
pub open spec fn token_mint_admitted(data: Seq<u8>) -> bool {
    &&& data.len() >= TOKEN_MINT_LEN
    &&& option_tag_at(data, 0)
    &&& data[45] <= 1
    &&& option_tag_at(data, 46)
}

/// The decimal places of the mint in `data`.
pub open spec fn token_mint_decimals(data: Seq<u8>) -> u8 {
    data[44]
}

impl TokenAccount {
    /// Whether `self` holds the fields of the holding record in `data`.
    pub open spec fn unpacked_from(&self, data: Seq<u8>) -> bool {
        &&& self.mint@ == token_account_mint(data)
        &&& self.owner@ == token_account_owner(data)
        &&& self.amount == token_account_amount(data)
    }
}

/// `spl_token::state::Account::unpack_from_slice`, which reads the first 165 bytes and
/// panics on fewer. It fails exactly on a malformed tag of an optional field or an unknown
/// state; otherwise the asset is bytes 0..32, the authority bytes 32..64 and the balance the
/// little-endian number in bytes 64..72.
#[verifier::external_body]
fn spl_unpack_account(data: &[u8]) -> (r: Result<TokenAccount, ProgramError>)
    requires
        data@.len() >= TOKEN_ACCOUNT_LEN,
    ensures
        r is Ok <==> token_account_admitted(data@),
        r matches Ok(account) ==> account.unpacked_from(data@),
{
    match spl_token::state::Account::unpack_from_slice(data) {
        Ok(account) => Ok(
            TokenAccount {
                mint: Pubkey { bytes: account.mint.to_bytes() },
                owner: Pubkey { bytes: account.owner.to_bytes() },
                amount: account.amount,
            },
        ),
        Err(e) => Err(e),
    }
}

/// `spl_token::state::Mint::unpack_from_slice`, which reads the first 82 bytes and panics on
/// fewer. It fails exactly on a malformed tag of an authority or an initialisation flag
/// above 1; otherwise the decimal places are byte 44.
#[verifier::external_body]
fn spl_unpack_mint(data: &[u8]) -> (r: Result<TokenMint, ProgramError>)
    requires
        data@.len() >= TOKEN_MINT_LEN,
    ensures
        r is Ok <==> token_mint_admitted(data@),
        r matches Ok(mint) ==> mint.decimals == token_mint_decimals(data@),
{
    match spl_token::state::Mint::unpack_from_slice(data) {
        Ok(mint) => Ok(TokenMint { decimals: mint.decimals }),
        Err(e) => Err(e),
    }
}

/// The holding record in `data`, or `InvalidAccountData` where the ledger does not admit it
/// or fewer than 165 bytes are there.
pub fn unpack_token_account(data: &[u8]) -> (r: Result<TokenAccount, RequestError>)
    ensures
        token_account_admitted(data@) ==> r is Ok && r->Ok_0.unpacked_from(data@),
        !token_account_admitted(data@) ==> r == Err::<TokenAccount, RequestError>(
            RequestError::InvalidAccountData,
        ),
{
    if data.len() < TOKEN_ACCOUNT_LEN {
        return Err(RequestError::InvalidAccountData);
    }
    match spl_unpack_account(data) {
        Ok(account) => Ok(account),
        Err(_) => Err(RequestError::InvalidAccountData),
    }
}

/// The mint in `data`, or `InvalidAccountData` where the ledger does not admit it or fewer
/// than 82 bytes are there.
pub fn unpack_token_mint(data: &[u8]) -> (r: Result<TokenMint, RequestError>)
    ensures
        token_mint_admitted(data@) ==> r == Ok::<TokenMint, RequestError>(
            TokenMint { decimals: token_mint_decimals(data@) },
        ),
        !token_mint_admitted(data@) ==> r == Err::<TokenMint, RequestError>(
            RequestError::InvalidAccountData,
        ),
{
    if data.len() < TOKEN_MINT_LEN {
        return Err(RequestError::InvalidAccountData);
    }
    match spl_unpack_mint(data) {
        Ok(mint) => Ok(mint),
        Err(_) => Err(RequestError::InvalidAccountData),
    }
}

} // verus!
