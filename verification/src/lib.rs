//! Accounting core of a collateralised lending market.
//!
//! A market keeps reserves of a liquidity asset and a collateral asset. Participants pledge
//! collateral, borrow liquidity against it up to the reserve's ceiling, repay and withdraw.
//! Every request names the records it works on; the market checks that they belong
//! together, books the change and says which transfer the caller has to make on the asset
//! ledger.

pub mod accounts;
pub mod bytes;
pub mod error;
pub mod gateway;
pub mod laws;
pub mod ledger;
pub mod math;
pub mod operator;
pub mod oracle;
pub mod position;
pub mod pubkey;
pub mod registry;
pub mod state;

pub use accounts::{
    BorrowLiquidity, DepositCollateral, DepositReserveLiquidity, InitLendingMarket,
    InitObligation, InitReserve, RedeemReserveCollateral, RepayLiquidity, ReserveLiveControl,
    SetBorrowRate, SetLendingMarketOwner, SetMarketPrice, WithdrawCollateral,
};
pub use error::{LendingError, RequestError};
pub use gateway::{
    settle_transfer, AuthoritySeeds, TokenTransferParams, TokenTransferParamsWithoutSeed,
};
pub use ledger::{unpack_token_account, unpack_token_mint, TokenAccount, TokenMint};
pub use operator::{deposit_reserve_liquidity, redeem_reserve_collateral};
pub use oracle::{decode_aggregator, published_price, read_price, Aggregator, Config, Submission};
pub use position::{
    borrow_liquidity, check_ceiling, deposit_collateral, init_obligation, repay_liquidity,
    withdraw_collateral,
};
pub use pubkey::Pubkey;
pub use registry::{
    init_lending_market, init_reserve, reserve_live_control, set_borrow_rate,
    set_lending_market_owner, set_market_price,
};
pub use state::{
    ForeignRecord, LendingMarket, Obligation, Record, Reserve, LENDING_MARKET_SIZE,
    OBLIGATION_SIZE, RESERVE_SIZE,
};
