//! The failures with which a request against the market can end.

use vstd::prelude::*;

verus! {

/// The market's own named failures.
#[derive(Clone, Copy, Debug, PartialEq, Eq, Structural)]
pub enum LendingError {
    /// The price feed is not the trusted one, cannot be decoded or carries no answer.
    InvalidOracleConfig,
    /// An intermediate value does not fit the width it is computed in.
    MathOverflow,
    /// The liquidity holding record is not the one the reserve registered.
    NotMatchLiquidityAccount,
    /// A record is not denominated in the reserve's liquidity asset.
    NotMatchLiquidityMint,
    /// The caller is not the owner recorded on the market or on the position.
    NotMatchOwnerAddress,
    /// A record is not denominated in the reserve's collateral asset.
    NotMatchCollateralMint,
    /// The collateral holding record is not the one the reserve registered.
    NotMatchCollateralAccount,
    /// The position belongs to another reserve.
    NotMatchReserveAddress,
    /// The ledger refused to move the assets.
    TokenTransferFailed,
    /// The ledger refused to hand a holding record over.
    TokenSetAuthorityFailed,
    /// The liquidity holding record holds less than was asked for.
    NotEnoughLiquidity,
    /// The position would owe more than its collateral allows.
    InvalidBorrowRate,
    /// The collateral holding record holds less than was asked for.
    NotEnoughCollateral,
    /// The reserve belongs to another market.
    NotMatchLendingMarket,
    /// A derived authority does not match its seeds.
    DerivedKeyInvalid,
}

/// How a request ends when it is turned down.
#[derive(Clone, Copy, Debug, PartialEq, Eq, Structural)]
pub enum RequestError {
    /// One of the market's named failures.
    Lending(LendingError),
    /// A holding or mint record that the asset ledger's layout does not admit.
    InvalidAccountData,
}

impl LendingError {
    /// The text shown for the failure.
    pub fn message(&self) -> (text: &'static str)
        ensures
            text@ == self.message_text(),
    {
        match self {
            LendingError::InvalidOracleConfig => {
                "Pyth product account provided is not owned by the lending market oracle program"
            },
            LendingError::MathOverflow => "Math operation overflow",
            LendingError::NotMatchLiquidityAccount => "Not match liquidity account",
            LendingError::NotMatchLiquidityMint => "Not match liquidity mint",
            LendingError::NotMatchOwnerAddress => "Not match owner address",
            LendingError::NotMatchCollateralMint => "Not match collateral mint",
            LendingError::NotMatchCollateralAccount => "Not match collateral account",
            LendingError::NotMatchReserveAddress => "Not match reserve address",
            LendingError::TokenTransferFailed => "Token transfer failed",
            LendingError::TokenSetAuthorityFailed => "Token set authority failed",
            LendingError::NotEnoughLiquidity => "Not enough liquidity",
            LendingError::InvalidBorrowRate => "Invalid borrow rate",
            LendingError::NotEnoughCollateral => "Not enough collateral",
            LendingError::NotMatchLendingMarket => "Not match lending market",
            LendingError::DerivedKeyInvalid => "Derived key invalid",
        }
    }

    /// Whether the failure says that a record does not belong to the market, reserve,
    /// position, asset or owner that the request holds it against.
    pub open spec fn is_relationship_mismatch(&self) -> bool {
        match self {
            LendingError::NotMatchLendingMarket => true,
            LendingError::NotMatchReserveAddress => true,
            LendingError::NotMatchLiquidityMint => true,
            LendingError::NotMatchCollateralMint => true,
            LendingError::NotMatchLiquidityAccount => true,
            LendingError::NotMatchCollateralAccount => true,
            LendingError::NotMatchOwnerAddress => true,
            _ => false,
        }
    }

    /// The characters of [`LendingError::message`].
    pub open spec fn message_text(&self) -> Seq<char> {
        match self {
            LendingError::InvalidOracleConfig => {
                "Pyth product account provided is not owned by the lending market oracle program"@
            },
            LendingError::MathOverflow => "Math operation overflow"@,
            LendingError::NotMatchLiquidityAccount => "Not match liquidity account"@,
            LendingError::NotMatchLiquidityMint => "Not match liquidity mint"@,
            LendingError::NotMatchOwnerAddress => "Not match owner address"@,
            LendingError::NotMatchCollateralMint => "Not match collateral mint"@,
            LendingError::NotMatchCollateralAccount => "Not match collateral account"@,
            LendingError::NotMatchReserveAddress => "Not match reserve address"@,
            LendingError::TokenTransferFailed => "Token transfer failed"@,
            LendingError::TokenSetAuthorityFailed => "Token set authority failed"@,
            LendingError::NotEnoughLiquidity => "Not enough liquidity"@,
            LendingError::InvalidBorrowRate => "Invalid borrow rate"@,
            LendingError::NotEnoughCollateral => "Not enough collateral"@,
            LendingError::NotMatchLendingMarket => "Not match lending market"@,
            LendingError::DerivedKeyInvalid => "Derived key invalid"@,
        }
    }
}

/// The failure `e` as the end of a request.
pub open spec fn lending(e: LendingError) -> RequestError {
    RequestError::Lending(e)
}

} // verus!
