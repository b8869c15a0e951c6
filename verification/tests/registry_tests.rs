use borsh::BorshSerialize;
use lending_core::{
    init_lending_market, init_reserve, reserve_live_control, set_borrow_rate,
    set_lending_market_owner, set_market_price, ForeignRecord, InitLendingMarket, InitReserve,
    LendingError, LendingMarket, Pubkey, Record, RequestError, Reserve, ReserveLiveControl,
    SetBorrowRate, SetLendingMarketOwner, SetMarketPrice, LENDING_MARKET_SIZE, OBLIGATION_SIZE,
    RESERVE_SIZE,
};
use spl_token::solana_program::program_option::COption;
use spl_token::solana_program::program_pack::Pack;
use spl_token::solana_program::pubkey::Pubkey as LedgerKey;
use spl_token::state::{Account, AccountState};

const MARKET: u8 = 1;
const RESERVE: u8 = 2;
const OWNER: u8 = 4;
const LIQUIDITY_MINT: u8 = 5;
const COLLATERAL_MINT: u8 = 6;
const RESERVE_LIQUIDITY: u8 = 7;
const RESERVE_COLLATERAL: u8 = 8;
const ORACLE: u8 = 11;
const TOKEN_PROGRAM: u8 = 12;
const STRANGER: u8 = 13;
const ISSUER: u8 = 14;

fn key(tag: u8) -> Pubkey {
    let mut bytes = [0u8; 32];
    bytes[0] = tag;
    bytes[31] = tag.wrapping_add(100);
    Pubkey::new(bytes)
}

fn lend(e: LendingError) -> RequestError {
    RequestError::Lending(e)
}

fn holding(address: u8, mint: u8, authority: u8, amount: u64) -> ForeignRecord {
    let account = Account {
        mint: LedgerKey::new_from_array(key(mint).to_bytes()),
        owner: LedgerKey::new_from_array(key(authority).to_bytes()),
        amount,
        delegate: COption::None,
        state: AccountState::Initialized,
        is_native: COption::None,
        delegated_amount: 0,
        close_authority: COption::None,
    };
    let mut data = vec![0u8; 165];
    Account::pack(account, &mut data).unwrap();
    ForeignRecord { key: key(address), owner: key(TOKEN_PROGRAM), data }
}

fn market() -> Record<LendingMarket> {
    Record {
        key: key(MARKET),
        state: LendingMarket { owner: key(OWNER), oracle_program_id: key(ISSUER) },
    }
}

fn blank_reserve() -> Reserve {
    let zero = Pubkey::new([0u8; 32]);
    Reserve {
        is_live: false,
        lending_market: zero,
        liquidity_mint: zero,
        liquidity_account: zero,
        liquidity_oracle: zero,
        collateral_mint: zero,
        collateral_account: zero,
        total_liquidity: 0,
        total_collateral: 0,
        max_borrow_rate_numerator: 0,
        max_borrow_rate_denominator: 0,
        liquidity_market_price: 0,
        liquidity_market_price_decimals: 0,
        collateral_market_price: 0,
        collateral_market_price_decimals: 0,
        bump: 0,
    }
}

fn reserve() -> Record<Reserve> {
    Record {
        key: key(RESERVE),
        state: Reserve {
            is_live: false,
            lending_market: key(MARKET),
            liquidity_mint: key(LIQUIDITY_MINT),
            liquidity_account: key(RESERVE_LIQUIDITY),
            liquidity_oracle: key(ORACLE),
            collateral_mint: key(COLLATERAL_MINT),
            collateral_account: key(RESERVE_COLLATERAL),
            total_liquidity: 11,
            total_collateral: 22,
            max_borrow_rate_numerator: 1,
            max_borrow_rate_denominator: 2,
            liquidity_market_price: 100,
            liquidity_market_price_decimals: 1,
            collateral_market_price: 50,
            collateral_market_price_decimals: 2,
            bump: 254,
        },
    }
}

/// An aggregator record without oracles, as borsh writes it, filled up to `len` bytes.
fn feed_bytes(decimals: u8, answer: Option<u128>, len: usize) -> Vec<u8> {
    let mut out = Vec::new();
    true.serialize(&mut out).unwrap();
    1u32.serialize(&mut out).unwrap();
    Vec::<[u8; 32]>::new().serialize(&mut out).unwrap();
    1u8.serialize(&mut out).unwrap();
    2u8.serialize(&mut out).unwrap();
    decimals.serialize(&mut out).unwrap();
    77i64.serialize(&mut out).unwrap();
    [3u8; 32].serialize(&mut out).unwrap();
    for k in 0..8 {
        (k as i64).serialize(&mut out).unwrap();
        (k as u128).serialize(&mut out).unwrap();
    }
    answer.serialize(&mut out).unwrap();
    out.resize(len, 0);
    out
}

fn feed(decimals: u8, answer: Option<u128>) -> ForeignRecord {
    ForeignRecord { key: key(ORACLE), owner: key(ISSUER), data: feed_bytes(decimals, answer, 4096) }
}

// ---- markets ----

#[test]
fn record_sizes() {
    assert_eq!(LENDING_MARKET_SIZE, 64);
    assert_eq!(RESERVE_SIZE, 279);
    assert_eq!(OBLIGATION_SIZE, 81);
}

#[test]
fn init_lending_market_records_owner_and_issuer() {
    let mut ctx = InitLendingMarket {
        lending_market: Record {
            key: key(MARKET),
            state: LendingMarket { owner: key(STRANGER), oracle_program_id: key(STRANGER) },
        },
        authority: key(OWNER),
        oracle_program_id: key(ISSUER),
    };
    assert_eq!(init_lending_market(&mut ctx), Ok(()));
    assert_eq!(ctx.lending_market, market());
    assert_eq!(ctx.authority, key(OWNER));
    assert_eq!(ctx.oracle_program_id, key(ISSUER));
}

#[test]
fn owner_hands_the_market_over() {
    let mut ctx =
        SetLendingMarketOwner { lending_market: market(), owner: key(OWNER), new_owner: key(STRANGER) };
    assert_eq!(set_lending_market_owner(&mut ctx), Ok(()));
    assert_eq!(ctx.lending_market.state.owner, key(STRANGER));
    assert_eq!(ctx.lending_market.state.oracle_program_id, key(ISSUER));
    assert_eq!(ctx.lending_market.key, key(MARKET));
    // The former owner has no say any more.
    assert_eq!(set_lending_market_owner(&mut ctx), Err(lend(LendingError::NotMatchOwnerAddress)));
    assert_eq!(ctx.lending_market.state.owner, key(STRANGER));
}

#[test]
fn stranger_cannot_hand_the_market_over() {
    let mut ctx = SetLendingMarketOwner {
        lending_market: market(),
        owner: key(STRANGER),
        new_owner: key(STRANGER),
    };
    let before = ctx;
    assert_eq!(set_lending_market_owner(&mut ctx), Err(lend(LendingError::NotMatchOwnerAddress)));
    assert_eq!(ctx, before);
}

// ---- creating a reserve ----

fn new_reserve() -> InitReserve {
    let mut state = blank_reserve();
    state.liquidity_market_price = 9;
    state.collateral_market_price_decimals = 8;
    state.total_collateral = 5;
    state.is_live = true;
    InitReserve {
        reserve: Record { key: key(RESERVE), state },
        owner: key(OWNER),
        lending_market: market(),
        liquidity_mint: key(LIQUIDITY_MINT),
        liquidity_account: holding(RESERVE_LIQUIDITY, LIQUIDITY_MINT, RESERVE, 500),
        oracle_price: ForeignRecord { key: key(ORACLE), owner: key(ISSUER), data: vec![] },
        collateral_mint: key(COLLATERAL_MINT),
        collateral_account: holding(RESERVE_COLLATERAL, COLLATERAL_MINT, RESERVE, 0),
    }
}

#[test]
fn init_reserve_binds_the_reserve() {
    let mut ctx = new_reserve();
    let before = ctx.clone();
    assert_eq!(init_reserve(&mut ctx, 253, 3, 4), Ok(()));
    assert_eq!(
        ctx.reserve,
        Record {
            key: key(RESERVE),
            state: Reserve {
                is_live: false,
                lending_market: key(MARKET),
                liquidity_mint: key(LIQUIDITY_MINT),
                liquidity_account: key(RESERVE_LIQUIDITY),
                liquidity_oracle: key(ORACLE),
                collateral_mint: key(COLLATERAL_MINT),
                collateral_account: key(RESERVE_COLLATERAL),
                total_liquidity: 0,
                total_collateral: 0,
                max_borrow_rate_numerator: 3,
                max_borrow_rate_denominator: 4,
                liquidity_market_price: 9,
                liquidity_market_price_decimals: 0,
                collateral_market_price: 0,
                collateral_market_price_decimals: 8,
                bump: 253,
            },
        }
    );
    let mut expected = before;
    expected.reserve = ctx.reserve;
    assert_eq!(ctx, expected);
}

#[test]
fn init_reserve_wants_the_reserve_to_control_the_collateral_record() {
    let mut ctx = new_reserve();
    ctx.collateral_account = holding(RESERVE_COLLATERAL, COLLATERAL_MINT, STRANGER, 0);
    let before = ctx.clone();
    assert_eq!(
        init_reserve(&mut ctx, 253, 3, 4),
        Err(lend(LendingError::NotMatchCollateralAccount))
    );
    assert_eq!(ctx, before);
}

#[test]
fn init_reserve_wants_the_reserve_to_control_the_liquidity_record() {
    let mut ctx = new_reserve();
    ctx.liquidity_account = holding(RESERVE_LIQUIDITY, LIQUIDITY_MINT, OWNER, 0);
    let before = ctx.clone();
    assert_eq!(init_reserve(&mut ctx, 253, 3, 4), Err(lend(LendingError::NotMatchLiquidityAccount)));
    assert_eq!(ctx, before);
}

#[test]
fn init_reserve_checks_in_order() {
    let mut ctx = new_reserve();
    ctx.owner = key(STRANGER);
    ctx.liquidity_account.data.clear();
    assert_eq!(init_reserve(&mut ctx, 0, 1, 2), Err(lend(LendingError::NotMatchOwnerAddress)));

    let mut ctx = new_reserve();
    ctx.liquidity_account.data.clear();
    ctx.liquidity_mint = key(STRANGER);
    assert_eq!(init_reserve(&mut ctx, 0, 1, 2), Err(RequestError::InvalidAccountData));

    let mut ctx = new_reserve();
    ctx.collateral_account.data[109] = 5;
    assert_eq!(init_reserve(&mut ctx, 0, 1, 2), Err(RequestError::InvalidAccountData));

    let mut ctx = new_reserve();
    ctx.liquidity_mint = key(STRANGER);
    ctx.collateral_mint = key(STRANGER);
    assert_eq!(init_reserve(&mut ctx, 0, 1, 2), Err(lend(LendingError::NotMatchLiquidityMint)));

    let mut ctx = new_reserve();
    ctx.collateral_mint = key(STRANGER);
    ctx.oracle_price.owner = key(STRANGER);
    assert_eq!(init_reserve(&mut ctx, 0, 1, 2), Err(lend(LendingError::NotMatchCollateralMint)));

    let mut ctx = new_reserve();
    ctx.oracle_price.owner = key(STRANGER);
    ctx.collateral_account = holding(RESERVE_COLLATERAL, COLLATERAL_MINT, STRANGER, 0);
    assert_eq!(init_reserve(&mut ctx, 0, 1, 2), Err(lend(LendingError::InvalidOracleConfig)));

    let mut ctx = new_reserve();
    ctx.collateral_account = holding(RESERVE_COLLATERAL, COLLATERAL_MINT, STRANGER, 0);
    ctx.liquidity_account = holding(RESERVE_LIQUIDITY, LIQUIDITY_MINT, STRANGER, 0);
    assert_eq!(init_reserve(&mut ctx, 0, 1, 2), Err(lend(LendingError::NotMatchCollateralAccount)));
}

// ---- activation and ceiling ----

#[test]
fn reserve_live_control_sets_the_flag() {
    let mut ctx = ReserveLiveControl { reserve: reserve(), owner: key(OWNER), lending_market: market() };
    assert_eq!(reserve_live_control(&mut ctx, true), Ok(()));
    let mut expected = reserve();
    expected.state.is_live = true;
    assert_eq!(ctx.reserve, expected);
    assert_eq!(reserve_live_control(&mut ctx, false), Ok(()));
    assert_eq!(ctx.reserve, reserve());
}

#[test]
fn reserve_live_control_checks_owner_then_market() {
    let mut ctx =
        ReserveLiveControl { reserve: reserve(), owner: key(STRANGER), lending_market: market() };
    ctx.lending_market.key = key(STRANGER);
    let before = ctx;
    assert_eq!(reserve_live_control(&mut ctx, true), Err(lend(LendingError::NotMatchOwnerAddress)));
    assert_eq!(ctx, before);

    let mut ctx = ReserveLiveControl { reserve: reserve(), owner: key(OWNER), lending_market: market() };
    ctx.lending_market.key = key(STRANGER);
    let before = ctx;
    assert_eq!(reserve_live_control(&mut ctx, true), Err(lend(LendingError::NotMatchLendingMarket)));
    assert_eq!(ctx, before);
}

#[test]
fn set_borrow_rate_overwrites_the_ceiling() {
    let mut ctx = SetBorrowRate { owner: key(OWNER), lending_market: market(), reserve: reserve() };
    assert_eq!(set_borrow_rate(&mut ctx, 0, 0), Ok(()));
    let mut expected = reserve();
    expected.state.max_borrow_rate_numerator = 0;
    expected.state.max_borrow_rate_denominator = 0;
    assert_eq!(ctx.reserve, expected);
    assert_eq!(set_borrow_rate(&mut ctx, u64::MAX, 7), Ok(()));
    assert_eq!(ctx.reserve.state.max_borrow_rate_numerator, u64::MAX);
    assert_eq!(ctx.reserve.state.max_borrow_rate_denominator, 7);
}

#[test]
fn set_borrow_rate_checks_owner_then_market() {
    let mut ctx = SetBorrowRate { owner: key(STRANGER), lending_market: market(), reserve: reserve() };
    let before = ctx;
    assert_eq!(set_borrow_rate(&mut ctx, 9, 9), Err(lend(LendingError::NotMatchOwnerAddress)));
    assert_eq!(ctx, before);

    let mut ctx = SetBorrowRate { owner: key(OWNER), lending_market: market(), reserve: reserve() };
    ctx.reserve.state.lending_market = key(STRANGER);
    let before = ctx;
    assert_eq!(set_borrow_rate(&mut ctx, 9, 9), Err(lend(LendingError::NotMatchLendingMarket)));
    assert_eq!(ctx, before);
}

// ---- prices ----

fn refresh(oracle_price: ForeignRecord) -> SetMarketPrice {
    SetMarketPrice { owner: key(OWNER), lending_market: market(), reserve: reserve(), oracle_price }
}

#[test]
fn set_market_price_stores_both_prices() {
    let mut ctx = refresh(feed(6, Some(123_456)));
    let before = ctx.clone();
    assert_eq!(set_market_price(&mut ctx, 777, 3), Ok(()));
    let mut expected = before;
    expected.reserve.state.liquidity_market_price = 123_456;
    expected.reserve.state.liquidity_market_price_decimals = 6;
    expected.reserve.state.collateral_market_price = 777;
    expected.reserve.state.collateral_market_price_decimals = 3;
    assert_eq!(ctx, expected);
}

#[test]
fn set_market_price_without_answer_keeps_the_prices() {
    let mut ctx = refresh(feed(6, None));
    let before = ctx.clone();
    assert_eq!(set_market_price(&mut ctx, 777, 3), Err(lend(LendingError::InvalidOracleConfig)));
    assert_eq!(ctx, before);
    assert_eq!(ctx.reserve.state.liquidity_market_price, 100);
    assert_eq!(ctx.reserve.state.collateral_market_price, 50);
}

#[test]
fn set_market_price_checks_in_order() {
    let mut ctx = refresh(feed(6, Some(1)));
    ctx.owner = key(STRANGER);
    ctx.lending_market.key = key(STRANGER);
    assert_eq!(set_market_price(&mut ctx, 1, 1), Err(lend(LendingError::NotMatchOwnerAddress)));

    let mut ctx = refresh(feed(6, Some(1)));
    ctx.lending_market.key = key(STRANGER);
    ctx.oracle_price.key = key(STRANGER);
    assert_eq!(set_market_price(&mut ctx, 1, 1), Err(lend(LendingError::NotMatchLendingMarket)));

    let mut ctx = refresh(feed(6, Some(1)));
    ctx.oracle_price.key = key(STRANGER);
    let before = ctx.clone();
    assert_eq!(set_market_price(&mut ctx, 1, 1), Err(lend(LendingError::InvalidOracleConfig)));
    assert_eq!(ctx, before);
}

#[test]
fn set_market_price_turns_down_a_feed_it_cannot_trust_or_read() {
    let mut ctx = refresh(feed(6, Some(1)));
    ctx.oracle_price.owner = key(STRANGER);
    let before = ctx.clone();
    assert_eq!(set_market_price(&mut ctx, 1, 1), Err(lend(LendingError::InvalidOracleConfig)));
    assert_eq!(ctx, before);

    let mut ctx = refresh(feed(6, Some(1)));
    ctx.oracle_price.data.truncate(4095);
    assert_eq!(set_market_price(&mut ctx, 1, 1), Err(lend(LendingError::InvalidOracleConfig)));

    let mut ctx = refresh(feed(6, Some(1)));
    ctx.oracle_price.data[0] = 2;
    let before = ctx.clone();
    assert_eq!(set_market_price(&mut ctx, 1, 1), Err(lend(LendingError::InvalidOracleConfig)));
    assert_eq!(ctx, before);
}

// ---- failures ----

#[test]
fn failures_have_their_messages() {
    let all = [
        (
            LendingError::InvalidOracleConfig,
            "Pyth product account provided is not owned by the lending market oracle program",
        ),
        (LendingError::MathOverflow, "Math operation overflow"),
        (LendingError::NotMatchLiquidityAccount, "Not match liquidity account"),
        (LendingError::NotMatchLiquidityMint, "Not match liquidity mint"),
        (LendingError::NotMatchOwnerAddress, "Not match owner address"),
        (LendingError::NotMatchCollateralMint, "Not match collateral mint"),
        (LendingError::NotMatchCollateralAccount, "Not match collateral account"),
        (LendingError::NotMatchReserveAddress, "Not match reserve address"),
        (LendingError::TokenTransferFailed, "Token transfer failed"),
        (LendingError::TokenSetAuthorityFailed, "Token set authority failed"),
        (LendingError::NotEnoughLiquidity, "Not enough liquidity"),
        (LendingError::InvalidBorrowRate, "Invalid borrow rate"),
        (LendingError::NotEnoughCollateral, "Not enough collateral"),
        (LendingError::NotMatchLendingMarket, "Not match lending market"),
        (LendingError::DerivedKeyInvalid, "Derived key invalid"),
    ];
    for (error, text) in all {
        assert_eq!(error.message(), text);
    }
}

// ---- whoever asks ----

#[test]
fn foreign_collateral_record_creates_nothing_for_any_caller() {
    for caller in [OWNER, STRANGER] {
        let mut ctx = new_reserve();
        ctx.owner = key(caller);
        ctx.collateral_account = holding(RESERVE_COLLATERAL, COLLATERAL_MINT, STRANGER, 0);
        let before = ctx.clone();
        let expected = if caller == OWNER {
            LendingError::NotMatchCollateralAccount
        } else {
            LendingError::NotMatchOwnerAddress
        };
        assert_eq!(init_reserve(&mut ctx, 253, 3, 4), Err(lend(expected)));
        assert_eq!(ctx, before);
    }
}

#[test]
fn feed_without_answer_keeps_the_prices_for_any_caller() {
    for caller in [OWNER, STRANGER] {
        let mut ctx = refresh(feed(6, None));
        ctx.owner = key(caller);
        let before = ctx.clone();
        let expected = if caller == OWNER {
            LendingError::InvalidOracleConfig
        } else {
            LendingError::NotMatchOwnerAddress
        };
        assert_eq!(set_market_price(&mut ctx, 777, 3), Err(lend(expected)));
        assert_eq!(ctx, before);
    }
}
