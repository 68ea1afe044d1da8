//! SolFi V2: a program with a one-byte instruction id and plain
//! little-endian arguments.
//!
//! A swap takes 13 accounts and a payload of 25 bytes: the instruction id,
//! the amount in, the least amount out, and the side.

use vstd::prelude::*;
use crate::account::{
    account_list, build_account_list, AccountHandle, AccountMeta, Capability, Instruction,
    SchemaArityError,
};
use crate::address::{
    base58_decode_32, decode_base58_32, same_address, POOL_HYPE_USDC, POOL_MON_USDC,
    POOL_PUMP_USDC, POOL_USDT_USDC, POOL_WSOL_USDC, POOL_ZEC_USDC, POOL_ZENZEC_USDC,
    SOLFI_V2_PROGRAM,
};
use crate::codec::{
    layout_well_formed, read_field_32, read_field_u64, read_field_u8, u64_from_le, u64_to_le,
    write_u64_le,
};

verus! {

/// The id of the swap instruction: a single byte.
pub const SWAP_INSTRUCTION_ID: u8 = 0x07;

/// Size in bytes of a swap payload.
pub const SWAP_DATA_SIZE: usize = 25;

/// Number of accounts of a swap.
pub const SWAP_ACCOUNTS_COUNT: usize = 13;

/// Error of the program: account data is stale.
pub const ERROR_STALE_DATA: u32 = 0x17;

/// Error of the program: the oracle has expired.
pub const ERROR_ORACLE_EXPIRED: u32 = 23;

/// Market type `0xFF`, the most common.
pub const MARKET_TYPE_FF: u8 = 0xFF;

/// Market type `0xFE`.
pub const MARKET_TYPE_FE: u8 = 0xFE;

/// Market type `0xFD`.
pub const MARKET_TYPE_FD: u8 = 0xFD;

/// Market type `0xFC`.
pub const MARKET_TYPE_FC: u8 = 0xFC;

/// The side of a swap.
#[derive(Clone, Copy, Debug, PartialEq, Eq, Structural)]
pub enum SwapSide {
    /// Quote to base. On the wire: 0.
    Buy,
    /// Base to quote. On the wire: 1.
    Sell,
}

impl SwapSide {
    /// The integer that stands for the side on the wire.
    pub open spec fn wire(self) -> u64 {
        match self {
            SwapSide::Buy => 0,
            SwapSide::Sell => 1,
        }
    }

    /// The integer that stands for the side on the wire.
    pub fn to_u64(self) -> (raw: u64)
        ensures
            raw == self.wire(),
    {
        match self {
            SwapSide::Buy => 0,
            SwapSide::Sell => 1,
        }
    }

    /// `Sell` for `true`, `Buy` for `false`.
    pub fn from_is_sell(is_sell: bool) -> (side: Self)
        ensures
            side == if is_sell {
                SwapSide::Sell
            } else {
                SwapSide::Buy
            },
    {
        if is_sell {
            SwapSide::Sell
        } else {
            SwapSide::Buy
        }
    }
}

/// The capability of each slot of a swap, in order.
pub const SWAP_SCHEMA: [Capability; 13] = [
    Capability::Writable,
    Capability::Readonly,
    Capability::Writable,
    Capability::Writable,
    Capability::Writable,
    Capability::Writable,
    Capability::Writable,
    Capability::Readonly,
    Capability::Readonly,
    Capability::Readonly,
    Capability::Readonly,
    Capability::Readonly,
    Capability::Readonly,
];

/// The accounts of a swap, by role.
#[derive(Clone, Copy, Debug)]
pub struct SwapAccounts {
    /// Market state: pool configuration and reserves.
    pub market_state: AccountHandle,
    /// Market authority, which signs for the vaults.
    pub authority: AccountHandle,
    /// The pool's base token vault.
    pub base_vault: AccountHandle,
    /// The pool's quote token vault.
    pub quote_vault: AccountHandle,
    /// The user's base token account.
    pub user_base_account: AccountHandle,
    /// The user's quote token account.
    pub user_quote_account: AccountHandle,
    /// Receives the trading fees.
    pub fee_receiver: AccountHandle,
    /// Referral account.
    pub referral_account: AccountHandle,
    /// Base token mint.
    pub base_mint: AccountHandle,
    /// Quote token mint.
    pub quote_mint: AccountHandle,
    /// Token program.
    pub token_program: AccountHandle,
    /// Second token program, for pools of mixed token standards.
    pub token_program_2: AccountHandle,
    /// Instructions sysvar.
    pub sysvar_instructions: AccountHandle,
}

impl SwapAccounts {
    /// The handles in the order that the program expects.
    pub open spec fn handles(self) -> Seq<AccountHandle> {
        seq![
            self.market_state,
            self.authority,
            self.base_vault,
            self.quote_vault,
            self.user_base_account,
            self.user_quote_account,
            self.fee_receiver,
            self.referral_account,
            self.base_mint,
            self.quote_mint,
            self.token_program,
            self.token_program_2,
            self.sysvar_instructions,
        ]
    }

    /// Takes the thirteen accounts from a list in the order of the schema. A
    /// list of any other length is refused.
    pub fn from_handles(handles: &[AccountHandle]) -> (r: Result<Self, SchemaArityError>)
        ensures
            handles@.len() == 13 ==> r is Ok && r->Ok_0.handles() == handles@,
            handles@.len() != 13 ==> r == Err::<Self, SchemaArityError>(
                SchemaArityError { expected: 13, found: handles@.len() as usize },
            ),
    {
        if handles.len() != SWAP_ACCOUNTS_COUNT {
            return Err(SchemaArityError { expected: SWAP_ACCOUNTS_COUNT, found: handles.len() });
        }
        let accounts = SwapAccounts {
            market_state: handles[0],
            authority: handles[1],
            base_vault: handles[2],
            quote_vault: handles[3],
            user_base_account: handles[4],
            user_quote_account: handles[5],
            fee_receiver: handles[6],
            referral_account: handles[7],
            base_mint: handles[8],
            quote_mint: handles[9],
            token_program: handles[10],
            token_program_2: handles[11],
            sysvar_instructions: handles[12],
        };
        assert(accounts.handles() =~= handles@);
        Ok(accounts)
    }

    /// The account list of a swap: thirteen slots, each with the capability
    /// of the schema.
    pub fn to_instruction_accounts(&self) -> (list: [AccountMeta; 13])
        ensures
            list@ == account_list(self.handles(), SWAP_SCHEMA@),
            list@.len() == SWAP_ACCOUNTS_COUNT,
    {
        build_account_list(&self.to_views(), &SWAP_SCHEMA)
    }

    /// The handles in the order that the program expects.
    pub fn to_views(&self) -> (views: [AccountHandle; 13])
        ensures
            views@ == self.handles(),
    {
        let views = [
            self.market_state,
            self.authority,
            self.base_vault,
            self.quote_vault,
            self.user_base_account,
            self.user_quote_account,
            self.fee_receiver,
            self.referral_account,
            self.base_mint,
            self.quote_mint,
            self.token_program,
            self.token_program_2,
            self.sysvar_instructions,
        ];
        assert(views@ =~= self.handles());
        views
    }
}

/// What a swap asks for.
#[derive(Clone, Copy, Debug)]
pub struct SwapArgs {
    /// Amount of the input token, in its smallest unit.
    pub amount_in: u64,
    /// Least amount of the output token that the swap may give.
    pub min_amount_out: u64,
    /// Side of the swap.
    pub side: SwapSide,
}

impl SwapArgs {
    /// Arguments for a swap.
    pub fn new(amount_in: u64, min_amount_out: u64, side: SwapSide) -> (args: Self)
        ensures
            args.amount_in == amount_in,
            args.min_amount_out == min_amount_out,
            args.side == side,
    {
        Self { amount_in, min_amount_out, side }
    }

    /// Arguments for a buy: quote to base.
    pub fn buy(amount_in: u64, min_amount_out: u64) -> (args: Self)
        ensures
            args.amount_in == amount_in,
            args.min_amount_out == min_amount_out,
            args.side == SwapSide::Buy,
    {
        Self::new(amount_in, min_amount_out, SwapSide::Buy)
    }

    /// Arguments for a sell: base to quote.
    pub fn sell(amount_in: u64, min_amount_out: u64) -> (args: Self)
        ensures
            args.amount_in == amount_in,
            args.min_amount_out == min_amount_out,
            args.side == SwapSide::Sell,
    {
        Self::new(amount_in, min_amount_out, SwapSide::Sell)
    }

    /// The payload: instruction id, amount in, least amount out, side; the
    /// integers little-endian.
    pub open spec fn bytes(self) -> Seq<u8> {
        seq![SWAP_INSTRUCTION_ID] + u64_to_le(self.amount_in) + u64_to_le(self.min_amount_out)
            + u64_to_le(self.side.wire())
    }

    /// Serializes to the payload.
    pub fn to_bytes(&self) -> (data: [u8; 25])
        ensures
            data@ == self.bytes(),
            data@.len() == SWAP_DATA_SIZE,
    {
        let mut data: [u8; 25] = [0u8; 25];
        data[0] = SWAP_INSTRUCTION_ID;
        write_u64_le(&mut data, 1, self.amount_in);
        write_u64_le(&mut data, 9, self.min_amount_out);
        write_u64_le(&mut data, 17, self.side.to_u64());
        assert(data@ =~= self.bytes());
        data
    }
}

/// The program's address.
pub fn program_id() -> (id: [u8; 32])
    ensures
        id@ == base58_decode_32(SOLFI_V2_PROGRAM@),
{
    decode_base58_32(SOLFI_V2_PROGRAM)
}

/// Whether `program_id` is this program's address.
pub fn is_solfi_v2_program(program_id: &[u8; 32]) -> (is_it: bool)
    ensures
        is_it == (program_id@ == base58_decode_32(SOLFI_V2_PROGRAM@)),
{
    let id = self::program_id();
    same_address(program_id, &id)
}

/// Builds the swap instruction: this program, the thirteen accounts of the
/// schema, the payload of the arguments.
pub fn swap(accounts: &SwapAccounts, args: &SwapArgs) -> (ix: Instruction<13>)
    ensures
        ix.program_id@ == base58_decode_32(SOLFI_V2_PROGRAM@),
        ix.accounts@ == account_list(accounts.handles(), SWAP_SCHEMA@),
        ix.data@ == args.bytes(),
{
    Instruction {
        program_id: program_id(),
        accounts: accounts.to_instruction_accounts(),
        data: args.to_bytes(),
    }
}

/// Builds the swap instruction from bare values; `is_sell` chooses the side.
pub fn swap_raw(
    accounts: &SwapAccounts,
    amount_in: u64,
    min_amount_out: u64,
    is_sell: bool,
) -> (ix: Instruction<13>)
    ensures
        ix.program_id@ == base58_decode_32(SOLFI_V2_PROGRAM@),
        ix.accounts@ == account_list(accounts.handles(), SWAP_SCHEMA@),
        ix.data@ == (SwapArgs {
            amount_in,
            min_amount_out,
            side: if is_sell {
                SwapSide::Sell
            } else {
                SwapSide::Buy
            },
        }).bytes(),
{
    let args = SwapArgs::new(amount_in, min_amount_out, SwapSide::from_is_sell(is_sell));
    swap(accounts, &args)
}

/// Where the fields of a market state account lie. None is obfuscated.
pub struct MarketStateLayout;

impl MarketStateLayout {
    /// Market type: the first byte.
    pub const MARKET_TYPE_OFFSET: usize = 0;

    /// Base mint.
    pub const BASE_MINT_OFFSET: usize = 8;

    /// Quote mint.
    pub const QUOTE_MINT_OFFSET: usize = 40;

    /// Base vault.
    pub const BASE_VAULT_OFFSET: usize = 72;

    /// Quote vault.
    pub const QUOTE_VAULT_OFFSET: usize = 104;

    /// Fee rate numerator.
    pub const FEE_RATE_OFFSET: usize = 136;

    /// Size of the account.
    pub const SIZE: usize = 1728;

    /// Size below which a buffer is not taken for a market state.
    pub const MIN_SIZE: usize = 200;
}

/// The fields of a market state do not overlap, and a buffer of the minimum
/// size holds them all.
pub proof fn lemma_market_state_layout_well_formed()
    ensures
        layout_well_formed(
            seq![
                (MarketStateLayout::MARKET_TYPE_OFFSET as int, 1int),
                (MarketStateLayout::BASE_MINT_OFFSET as int, 32int),
                (MarketStateLayout::QUOTE_MINT_OFFSET as int, 32int),
                (MarketStateLayout::BASE_VAULT_OFFSET as int, 32int),
                (MarketStateLayout::QUOTE_VAULT_OFFSET as int, 32int),
                (MarketStateLayout::FEE_RATE_OFFSET as int, 8int),
            ],
            MarketStateLayout::MIN_SIZE as int,
        ),
        MarketStateLayout::MIN_SIZE <= MarketStateLayout::SIZE,
{
}

/// Reads the market type: the first byte of a market state.
pub fn parse_market_type(data: &[u8]) -> (market_type: Option<u8>)
    ensures
        data@.len() >= MarketStateLayout::MIN_SIZE ==> market_type == Some(data@[0]),
        data@.len() < MarketStateLayout::MIN_SIZE ==> market_type is None,
{
    read_field_u8(data, MarketStateLayout::MIN_SIZE, MarketStateLayout::MARKET_TYPE_OFFSET)
}

/// Whether `market_type` is one of the four types that the program is known
/// to use. A type outside them is unrecognized, not an error.
pub fn is_valid_market_type(market_type: u8) -> (known: bool)
    ensures
        known == (market_type == MARKET_TYPE_FF || market_type == MARKET_TYPE_FE || market_type
            == MARKET_TYPE_FD || market_type == MARKET_TYPE_FC),
{
    market_type == MARKET_TYPE_FF || market_type == MARKET_TYPE_FE || market_type
        == MARKET_TYPE_FD || market_type == MARKET_TYPE_FC
}

/// Reads the base vault's address from a market state.
pub fn parse_base_vault(data: &[u8]) -> (vault: Option<[u8; 32]>)
    ensures
        data@.len() >= MarketStateLayout::MIN_SIZE ==> vault is Some && vault->Some_0@
            == data@.subrange(72, 104),
        data@.len() < MarketStateLayout::MIN_SIZE ==> vault is None,
{
    read_field_32(data, MarketStateLayout::MIN_SIZE, MarketStateLayout::BASE_VAULT_OFFSET)
}

/// Reads the quote vault's address from a market state.
pub fn parse_quote_vault(data: &[u8]) -> (vault: Option<[u8; 32]>)
    ensures
        data@.len() >= MarketStateLayout::MIN_SIZE ==> vault is Some && vault->Some_0@
            == data@.subrange(104, 136),
        data@.len() < MarketStateLayout::MIN_SIZE ==> vault is None,
{
    read_field_32(data, MarketStateLayout::MIN_SIZE, MarketStateLayout::QUOTE_VAULT_OFFSET)
}

/// A pool that is known to be active.
#[derive(Clone, Copy, Debug, PartialEq, Eq, Structural)]
pub enum KnownPool {
    PumpUsdc,
    WsolUsdc,
    UsdtUsdc,
    ZecUsdc,
    MonUsdc,
    HypeUsdc,
    ZenZecUsdc,
}

impl KnownPool {
    /// The base58 text of the pool's address.
    pub open spec fn base58(self) -> Seq<char> {
        match self {
            KnownPool::PumpUsdc => POOL_PUMP_USDC@,
            KnownPool::WsolUsdc => POOL_WSOL_USDC@,
            KnownPool::UsdtUsdc => POOL_USDT_USDC@,
            KnownPool::ZecUsdc => POOL_ZEC_USDC@,
            KnownPool::MonUsdc => POOL_MON_USDC@,
            KnownPool::HypeUsdc => POOL_HYPE_USDC@,
            KnownPool::ZenZecUsdc => POOL_ZENZEC_USDC@,
        }
    }

    /// The pool's address.
    pub fn address(self) -> (out: [u8; 32])
        ensures
            out@ == base58_decode_32(self.base58()),
    {
        match self {
            KnownPool::PumpUsdc => decode_base58_32(POOL_PUMP_USDC),
            KnownPool::WsolUsdc => decode_base58_32(POOL_WSOL_USDC),
            KnownPool::UsdtUsdc => decode_base58_32(POOL_USDT_USDC),
            KnownPool::ZecUsdc => decode_base58_32(POOL_ZEC_USDC),
            KnownPool::MonUsdc => decode_base58_32(POOL_MON_USDC),
            KnownPool::HypeUsdc => decode_base58_32(POOL_HYPE_USDC),
            KnownPool::ZenZecUsdc => decode_base58_32(POOL_ZENZEC_USDC),
        }
    }

    /// The market type of the pool.
    pub fn market_type(self) -> (tag: u8)
        ensures
            tag == match self {
                KnownPool::PumpUsdc | KnownPool::WsolUsdc | KnownPool::ZecUsdc => MARKET_TYPE_FF,
                KnownPool::MonUsdc | KnownPool::ZenZecUsdc => MARKET_TYPE_FE,
                KnownPool::HypeUsdc => MARKET_TYPE_FD,
                KnownPool::UsdtUsdc => MARKET_TYPE_FC,
            },
    {
        match self {
            KnownPool::PumpUsdc => MARKET_TYPE_FF,
            KnownPool::WsolUsdc => MARKET_TYPE_FF,
            KnownPool::ZecUsdc => MARKET_TYPE_FF,
            KnownPool::MonUsdc => MARKET_TYPE_FE,
            KnownPool::ZenZecUsdc => MARKET_TYPE_FE,
            KnownPool::HypeUsdc => MARKET_TYPE_FD,
            KnownPool::UsdtUsdc => MARKET_TYPE_FC,
        }
    }
}

/// Offset of the amount in a token account.
pub const TOKEN_AMOUNT_OFFSET: usize = 64;

/// Size below which a buffer is not taken for a token account: mint, owner
/// and amount.
pub const TOKEN_ACCOUNT_MIN_SIZE: usize = 72;

/// The balance that a token account's data holds: the little-endian integer
/// at bytes 64 to 72, where the data reaches that far.
pub open spec fn token_balance(data: Seq<u8>) -> Option<u64> {
    if data.len() >= 72 {
        Some(u64_from_le(data.subrange(64, 72)))
    } else {
        None
    }
}

/// Reads the balance of a token account.
pub fn parse_token_account_balance(data: &[u8]) -> (balance: Option<u64>)
    ensures
        balance == token_balance(data@),
{
    read_field_u64(data, TOKEN_ACCOUNT_MIN_SIZE, TOKEN_AMOUNT_OFFSET)
}

/// Reads the pool's reserves from its two vaults: base first, quote second.
/// Nothing is returned unless both balances can be read.
pub fn get_pool_reserves(
    base_vault_data: &[u8],
    quote_vault_data: &[u8],
) -> (reserves: Option<(u64, u64)>)
    ensures
        reserves == match (token_balance(base_vault_data@), token_balance(quote_vault_data@)) {
            (Some(base), Some(quote)) => Some((base, quote)),
            _ => None,
        },
{
    match parse_token_account_balance(base_vault_data) {
        None => None,
        Some(base_reserve) => match parse_token_account_balance(quote_vault_data) {
            None => None,
            Some(quote_reserve) => Some((base_reserve, quote_reserve)),
        },
    }
}

/// What a constant-product pool gives for `amount_in`, before fees:
/// `reserve_out * amount_in / (reserve_in + amount_in)`, rounded down, and
/// zero where any of the three is zero.
pub open spec fn constant_product_output(amount_in: int, reserve_in: int, reserve_out: int) -> int {
    if reserve_in == 0 || reserve_out == 0 || amount_in == 0 {
        0
    } else {
        (reserve_out * amount_in) / (reserve_in + amount_in)
    }
}

/// The part of `amount_in` that is left after a fee of `fee_bps` basis
/// points, rounded down. A fee of 10000 basis points or more leaves nothing.
pub open spec fn amount_after_fee(amount_in: int, fee_bps: int) -> int {
    if fee_bps >= 10000 {
        0
    } else {
        (amount_in * (10000 - fee_bps)) / 10000
    }
}

/// What the pool gives is never more than its reserve.
pub proof fn lemma_output_within_reserve(amount_in: int, reserve_in: int, reserve_out: int)
    requires
        0 <= amount_in,
        0 < reserve_in,
        0 <= reserve_out,
    ensures
        0 <= (reserve_out * amount_in) / (reserve_in + amount_in) <= reserve_out,
        0 <= reserve_out * amount_in,
{
    assert(0 <= reserve_out * amount_in <= reserve_out * (reserve_in + amount_in))
        by (nonlinear_arith)
        requires
            0 <= amount_in,
            0 < reserve_in,
            0 <= reserve_out,
    ;
    vstd::arithmetic::div_mod::lemma_div_is_ordered(
        reserve_out * amount_in,
        reserve_out * (reserve_in + amount_in),
        reserve_in + amount_in,
    );
    vstd::arithmetic::div_mod::lemma_div_multiples_vanish(reserve_out, reserve_in + amount_in);
    vstd::arithmetic::div_mod::lemma_div_pos_is_pos(
        reserve_out * amount_in,
        reserve_in + amount_in,
    );
}

/// The output of a constant-product pool for `amount_in`, without fees.
pub fn calculate_output_amount(amount_in: u64, reserve_in: u64, reserve_out: u64) -> (out: u64)
    ensures
        out == constant_product_output(amount_in as int, reserve_in as int, reserve_out as int),
{
    if reserve_in == 0 || reserve_out == 0 || amount_in == 0 {
        return 0;
    }
    proof {
        lemma_output_within_reserve(amount_in as int, reserve_in as int, reserve_out as int);
        assert(reserve_out * amount_in <= 0xffff_ffff_ffff_ffff * 0xffff_ffff_ffff_ffff)
            by (nonlinear_arith)
            requires
                0 <= reserve_out <= 0xffff_ffff_ffff_ffff,
                0 <= amount_in <= 0xffff_ffff_ffff_ffff,
        ;
    }
    let numerator: u128 = (reserve_out as u128) * (amount_in as u128);
    let denominator: u128 = (reserve_in as u128) + (amount_in as u128);
    (numerator / denominator) as u64
}

/// The output of a constant-product pool for `amount_in`, after a fee of
/// `fee_bps` basis points has been taken from the input.
pub fn calculate_output_with_fee(
    amount_in: u64,
    reserve_in: u64,
    reserve_out: u64,
    fee_bps: u64,
) -> (out: u64)
    ensures
        out == if reserve_in == 0 || reserve_out == 0 || amount_in == 0 {
            0
        } else {
            (reserve_out * amount_after_fee(amount_in as int, fee_bps as int)) / (reserve_in
                + amount_after_fee(amount_in as int, fee_bps as int))
        },
{
    if reserve_in == 0 || reserve_out == 0 || amount_in == 0 {
        return 0;
    }
    let fee_multiplier: u64 = if fee_bps >= 10000 {
        0
    } else {
        10000 - fee_bps
    };
    proof {
        assert(0 <= amount_in * fee_multiplier <= amount_in * 10000) by (nonlinear_arith)
            requires
                0 <= amount_in,
                0 <= fee_multiplier <= 10000,
        ;
    }
    let amount_in_after_fee: u128 = ((amount_in as u128) * (fee_multiplier as u128)) / 10000;
    proof {
        assert(amount_in_after_fee == amount_after_fee(amount_in as int, fee_bps as int));
        assert(amount_in_after_fee <= amount_in);
        lemma_output_within_reserve(
            amount_in_after_fee as int,
            reserve_in as int,
            reserve_out as int,
        );
        assert(reserve_out * amount_in_after_fee <= 0xffff_ffff_ffff_ffff * 0xffff_ffff_ffff_ffff)
            by (nonlinear_arith)
            requires
                0 <= reserve_out <= 0xffff_ffff_ffff_ffff,
                0 <= amount_in_after_fee <= 0xffff_ffff_ffff_ffff,
        ;
    }
    let numerator: u128 = (reserve_out as u128) * amount_in_after_fee;
    let denominator: u128 = (reserve_in as u128) + amount_in_after_fee;
    (numerator / denominator) as u64
}

} // verus!
