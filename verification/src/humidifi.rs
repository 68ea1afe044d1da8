//! HumidiFi: a program whose account state and instruction payloads are
//! obfuscated with an XOR keystream.
//!
//! Two swap instructions exist: the first takes 9 accounts, the second 13.
//! The raw direction flag of the first is the inverse of the aggregator's
//! convention; that of the second follows it.

use vstd::prelude::*;
use crate::account::{
    account_list, build_account_list, AccountHandle, AccountMeta, Capability, Instruction,
    SchemaArityError,
};
use crate::address::{base58_decode_32, decode_base58_32, same_address, HUMIDIFI_PROGRAM};
use crate::codec::{
    layout_well_formed, lemma_xor_field_involution, lemma_xor_scalar_involution, read_field_u64,
    read_obfuscated_field_32, u64_from_le, u64_to_le, write_u64_le, xor_field, xor_field_with,
    xor_scalar_spec,
};

verus! {

/// Size in bytes of a swap payload.
pub const SWAP_DATA_SIZE: usize = 25;

/// Number of accounts of the first swap instruction.
pub const SWAP_V1_ACCOUNTS_COUNT: usize = 9;

/// Number of accounts of the second swap instruction.
pub const SWAP_V2_ACCOUNTS_COUNT: usize = 13;

/// The keyset: chunk `i` of a 32-byte field is XOR-ed with key `i`.
pub const XOR_KEYS: [u64; 4] = [
    0xfb5c_e87a_ae44_3c38,
    0x04a2_1784_51ba_c3c7,
    0x04a1_1787_51b9_c3c6,
    0x04a0_1786_51b8_c3c5,
];

/// Decodes a 32-byte address read from obfuscated pool data.
pub fn xor_decode_pubkey(encrypted: &[u8; 32]) -> (decoded: [u8; 32])
    ensures
        decoded@ == xor_field(encrypted@, XOR_KEYS@),
{
    xor_field_with(encrypted, &XOR_KEYS)
}

/// Encodes a 32-byte address. The transform is its own inverse, so this is
/// the decoding.
pub fn xor_encode_pubkey(pubkey: &[u8; 32]) -> (encoded: [u8; 32])
    ensures
        encoded@ == xor_field(pubkey@, XOR_KEYS@),
{
    xor_decode_pubkey(pubkey)
}

/// Decodes an integer with the key that `key_index` selects, modulo four.
pub fn xor_decode_u64(encrypted: u64, key_index: usize) -> (value: u64)
    ensures
        value == xor_scalar_spec(encrypted, XOR_KEYS@, key_index as int),
{
    encrypted ^ XOR_KEYS[key_index % 4]
}

/// Encodes an integer with the key that `key_index` selects, modulo four.
pub fn xor_encode_u64(value: u64, key_index: usize) -> (encoded: u64)
    ensures
        encoded == xor_scalar_spec(value, XOR_KEYS@, key_index as int),
{
    value ^ XOR_KEYS[key_index % 4]
}

/// Decoding what was encoded, and encoding what was decoded, gives back the
/// 32 bytes that went in.
pub proof fn lemma_pubkey_round_trip(v: Seq<u8>)
    requires
        v.len() == 32,
    ensures
        xor_field(v, XOR_KEYS@).len() == 32,
        xor_field(xor_field(v, XOR_KEYS@), XOR_KEYS@) == v,
{
    lemma_xor_field_involution(v, XOR_KEYS@);
}

/// Decoding an integer that was encoded under the same key index, or
/// encoding one that was decoded, gives back the integer.
pub proof fn lemma_u64_round_trip(value: u64, key_index: usize)
    ensures
        xor_scalar_spec(
            xor_scalar_spec(value, XOR_KEYS@, key_index as int),
            XOR_KEYS@,
            key_index as int,
        ) == value,
{
    lemma_xor_scalar_involution(value, XOR_KEYS@, key_index as int);
}

/// Where the fields of a pool account lie. All four are obfuscated.
pub struct PoolDataLayout;

impl PoolDataLayout {
    /// Quote mint.
    pub const QUOTE_MINT_OFFSET: usize = 384;

    /// Base mint.
    pub const BASE_MINT_OFFSET: usize = 416;

    /// Pool account.
    pub const POOL_ACCOUNT_OFFSET: usize = 448;

    /// Token account.
    pub const TOKEN_ACCOUNT_OFFSET: usize = 480;

    /// Size below which a buffer is not taken for pool data.
    pub const MIN_SIZE: usize = 512;
}

/// The four fields of pool data do not overlap, and a buffer of the minimum
/// size holds them all.
pub proof fn lemma_pool_layout_well_formed()
    ensures
        layout_well_formed(
            seq![
                (PoolDataLayout::QUOTE_MINT_OFFSET as int, 32int),
                (PoolDataLayout::BASE_MINT_OFFSET as int, 32int),
                (PoolDataLayout::POOL_ACCOUNT_OFFSET as int, 32int),
                (PoolDataLayout::TOKEN_ACCOUNT_OFFSET as int, 32int),
            ],
            PoolDataLayout::MIN_SIZE as int,
        ),
{
}

/// Reads the quote mint from pool data.
pub fn parse_quote_mint(pool_data: &[u8]) -> (mint: Option<[u8; 32]>)
    ensures
        pool_data@.len() >= PoolDataLayout::MIN_SIZE ==> mint is Some && mint->Some_0@
            == xor_field(pool_data@.subrange(384, 416), XOR_KEYS@),
        pool_data@.len() < PoolDataLayout::MIN_SIZE ==> mint is None,
{
    read_obfuscated_field_32(
        pool_data,
        PoolDataLayout::MIN_SIZE,
        PoolDataLayout::QUOTE_MINT_OFFSET,
        XOR_KEYS.as_slice(),
    )
}

/// Reads the base mint from pool data.
pub fn parse_base_mint(pool_data: &[u8]) -> (mint: Option<[u8; 32]>)
    ensures
        pool_data@.len() >= PoolDataLayout::MIN_SIZE ==> mint is Some && mint->Some_0@
            == xor_field(pool_data@.subrange(416, 448), XOR_KEYS@),
        pool_data@.len() < PoolDataLayout::MIN_SIZE ==> mint is None,
{
    read_obfuscated_field_32(
        pool_data,
        PoolDataLayout::MIN_SIZE,
        PoolDataLayout::BASE_MINT_OFFSET,
        XOR_KEYS.as_slice(),
    )
}

/// The direction of a swap.
#[derive(Clone, Copy, Debug, PartialEq, Eq, Structural)]
pub enum SwapDirection {
    /// Quote to base. Raw flag: `true` in the first instruction, `false` in
    /// the second and in the aggregator's convention.
    QuoteToBase,
    /// Base to quote. Raw flag: `false` in the first instruction, `true` in
    /// the second and in the aggregator's convention.
    BaseToQuote,
}

impl SwapDirection {
    /// The raw flag that the first swap instruction carries for a direction.
    pub open spec fn v1_flag(self) -> bool {
        self == SwapDirection::QuoteToBase
    }

    /// The raw flag that the second swap instruction carries for a direction.
    pub open spec fn v2_flag(self) -> bool {
        self == SwapDirection::BaseToQuote
    }

    /// The direction that the aggregator means by its flag, which is set for
    /// base to quote.
    pub open spec fn of_aggregator_flag(flag: bool) -> Self {
        if flag {
            SwapDirection::BaseToQuote
        } else {
            SwapDirection::QuoteToBase
        }
    }

    /// The raw flag of the first swap instruction, which inverts the
    /// aggregator's convention.
    pub fn to_swap_v1_bool(self) -> (flag: bool)
        ensures
            flag == self.v1_flag(),
    {
        match self {
            SwapDirection::QuoteToBase => true,
            SwapDirection::BaseToQuote => false,
        }
    }

    /// The raw flag of the second swap instruction, which follows the
    /// aggregator's convention.
    pub fn to_swap_v2_bool(self) -> (flag: bool)
        ensures
            flag == self.v2_flag(),
    {
        match self {
            SwapDirection::QuoteToBase => false,
            SwapDirection::BaseToQuote => true,
        }
    }

    /// The direction that the aggregator's flag stands for.
    pub fn from_jupiter_v1(jupiter_is_base_to_quote: bool) -> (direction: Self)
        ensures
            direction == Self::of_aggregator_flag(jupiter_is_base_to_quote),
    {
        if jupiter_is_base_to_quote {
            SwapDirection::BaseToQuote
        } else {
            SwapDirection::QuoteToBase
        }
    }
}

/// The byte that carries the direction: the constant `0x38` with the raw
/// flag in bit 0.
pub open spec fn direction_byte(flag: bool) -> u8 {
    if flag {
        0x39
    } else {
        0x38
    }
}

/// The payload of a swap with the given raw direction flag: the encoded swap
/// id, an encoded zero under key 1, the direction byte, an encoded zero
/// under key 3.
pub open spec fn swap_payload(swap_id: u64, flag: bool) -> Seq<u8> {
    u64_to_le(xor_scalar_spec(swap_id, XOR_KEYS@, 0)) + u64_to_le(
        xor_scalar_spec(0, XOR_KEYS@, 1),
    ) + seq![direction_byte(flag)] + u64_to_le(xor_scalar_spec(0, XOR_KEYS@, 3))
}

/// What a swap asks for.
#[derive(Clone, Copy, Debug)]
pub struct SwapArgs {
    /// Identifies the pool or pair.
    pub swap_id: u64,
    /// Direction of the swap.
    pub direction: SwapDirection,
}

/// Lays out the payload of a swap with the given raw direction flag.
fn payload(swap_id: u64, flag: bool) -> (data: [u8; 25])
    ensures
        data@ == swap_payload(swap_id, flag),
{
    let mut data: [u8; 25] = [0u8; 25];
    write_u64_le(&mut data, 0, xor_encode_u64(swap_id, 0));
    write_u64_le(&mut data, 8, xor_encode_u64(0, 1));
    let base_byte: u8 = 0x38;
    assert(0x38u8 | 0x01 == 0x39 && 0x38u8 & 0xFE == 0x38) by (bit_vector);
    data[16] = if flag {
        base_byte | 0x01
    } else {
        base_byte & 0xFE
    };
    write_u64_le(&mut data, 17, xor_encode_u64(0, 3));
    assert(data@ =~= swap_payload(swap_id, flag));
    data
}

impl SwapArgs {
    /// Arguments for a swap.
    pub fn new(swap_id: u64, direction: SwapDirection) -> (args: Self)
        ensures
            args.swap_id == swap_id,
            args.direction == direction,
    {
        Self { swap_id, direction }
    }

    /// The payload of the first swap instruction.
    pub open spec fn bytes_v1(self) -> Seq<u8> {
        swap_payload(self.swap_id, self.direction.v1_flag())
    }

    /// The payload of the second swap instruction.
    pub open spec fn bytes_v2(self) -> Seq<u8> {
        swap_payload(self.swap_id, self.direction.v2_flag())
    }

    /// Serializes to the payload of the first swap instruction.
    pub fn to_bytes_v1(&self) -> (data: [u8; 25])
        ensures
            data@ == self.bytes_v1(),
            data@.len() == SWAP_DATA_SIZE,
    {
        payload(self.swap_id, self.direction.to_swap_v1_bool())
    }

    /// Serializes to the payload of the second swap instruction.
    pub fn to_bytes_v2(&self) -> (data: [u8; 25])
        ensures
            data@ == self.bytes_v2(),
            data@.len() == SWAP_DATA_SIZE,
    {
        payload(self.swap_id, self.direction.to_swap_v2_bool())
    }
}

/// A direction taken from the aggregator's flag goes out with that flag
/// inverted in the first swap instruction and unchanged in the second.
pub proof fn lemma_aggregator_flag_translation(flag: bool)
    ensures
        SwapDirection::of_aggregator_flag(flag).v1_flag() == !flag,
        SwapDirection::of_aggregator_flag(flag).v2_flag() == flag,
{
}

/// The two swap instructions carry opposite raw flags for one direction, and
/// their payloads differ in the direction byte alone.
pub proof fn lemma_versions_invert_direction(args: SwapArgs)
    ensures
        args.direction.v1_flag() == !args.direction.v2_flag(),
        args.bytes_v1().len() == SWAP_DATA_SIZE,
        args.bytes_v2().len() == SWAP_DATA_SIZE,
        args.bytes_v1()[16] != args.bytes_v2()[16],
        forall|i: int| 0 <= i < 25 && i != 16 ==> args.bytes_v1()[i] == args.bytes_v2()[i],
{
}

/// The capability of each slot of the first swap instruction, in order.
pub const SWAP_V1_SCHEMA: [Capability; 9] = [
    Capability::ReadonlySigner,
    Capability::Writable,
    Capability::Writable,
    Capability::Writable,
    Capability::Writable,
    Capability::Writable,
    Capability::Readonly,
    Capability::Readonly,
    Capability::Readonly,
];

/// The capability of each slot of the second swap instruction, in order.
pub const SWAP_V2_SCHEMA: [Capability; 13] = [
    Capability::Writable,
    Capability::Writable,
    Capability::Writable,
    Capability::Writable,
    Capability::Writable,
    Capability::Writable,
    Capability::Readonly,
    Capability::Readonly,
    Capability::Readonly,
    Capability::Readonly,
    Capability::Readonly,
    Capability::Readonly,
    Capability::Readonly,
];

/// The accounts of the first swap instruction, by role.
#[derive(Clone, Copy, Debug)]
pub struct SwapV1Accounts {
    /// The user's wallet, which signs.
    pub user_wallet: AccountHandle,
    /// The pool.
    pub pool: AccountHandle,
    /// Pool-related accounts.
    pub pool_account_1: AccountHandle,
    pub pool_account_2: AccountHandle,
    pub pool_account_3: AccountHandle,
    pub pool_account_4: AccountHandle,
    /// Clock sysvar.
    pub clock: AccountHandle,
    /// Token program.
    pub token_program: AccountHandle,
    /// Instructions sysvar.
    pub instructions_sysvar: AccountHandle,
}

impl SwapV1Accounts {
    /// The handles in the order that the program expects.
    pub open spec fn handles(self) -> Seq<AccountHandle> {
        seq![
            self.user_wallet,
            self.pool,
            self.pool_account_1,
            self.pool_account_2,
            self.pool_account_3,
            self.pool_account_4,
            self.clock,
            self.token_program,
            self.instructions_sysvar,
        ]
    }

    /// Takes the nine accounts from a list in the order of the schema. A list
    /// of any other length is refused.
    pub fn from_handles(handles: &[AccountHandle]) -> (r: Result<Self, SchemaArityError>)
        ensures
            handles@.len() == 9 ==> r is Ok && r->Ok_0.handles() == handles@,
            handles@.len() != 9 ==> r == Err::<Self, SchemaArityError>(
                SchemaArityError { expected: 9, found: handles@.len() as usize },
            ),
    {
        if handles.len() != SWAP_V1_ACCOUNTS_COUNT {
            return Err(
                SchemaArityError { expected: SWAP_V1_ACCOUNTS_COUNT, found: handles.len() },
            );
        }
        let accounts = SwapV1Accounts {
            user_wallet: handles[0],
            pool: handles[1],
            pool_account_1: handles[2],
            pool_account_2: handles[3],
            pool_account_3: handles[4],
            pool_account_4: handles[5],
            clock: handles[6],
            token_program: handles[7],
            instructions_sysvar: handles[8],
        };
        assert(accounts.handles() =~= handles@);
        Ok(accounts)
    }

    /// The account list of the instruction: nine slots, each with the
    /// capability of the schema.
    pub fn to_instruction_accounts(&self) -> (list: [AccountMeta; 9])
        ensures
            list@ == account_list(self.handles(), SWAP_V1_SCHEMA@),
            list@.len() == SWAP_V1_ACCOUNTS_COUNT,
    {
        build_account_list(&self.to_views(), &SWAP_V1_SCHEMA)
    }

    /// The handles in the order that the program expects.
    pub fn to_views(&self) -> (views: [AccountHandle; 9])
        ensures
            views@ == self.handles(),
    {
        let views = [
            self.user_wallet,
            self.pool,
            self.pool_account_1,
            self.pool_account_2,
            self.pool_account_3,
            self.pool_account_4,
            self.clock,
            self.token_program,
            self.instructions_sysvar,
        ];
        assert(views@ =~= self.handles());
        views
    }
}

/// The accounts of the second swap instruction, by role.
#[derive(Clone, Copy, Debug)]
pub struct SwapV2Accounts {
    /// Pool-related accounts.
    pub pool_account_0: AccountHandle,
    pub pool_account_1: AccountHandle,
    pub pool_account_2: AccountHandle,
    pub pool_account_3: AccountHandle,
    pub pool_account_4: AccountHandle,
    pub pool_account_5: AccountHandle,
    /// Clock sysvar.
    pub clock: AccountHandle,
    /// Token program of the first token.
    pub token_program_1: AccountHandle,
    /// Token program of the second token.
    pub token_program_2: AccountHandle,
    /// Instructions sysvar.
    pub instructions_sysvar: AccountHandle,
    /// Quote mint.
    pub quote_mint: AccountHandle,
    /// Base mint.
    pub base_mint: AccountHandle,
    /// One more account that the program reads.
    pub additional_account: AccountHandle,
}

impl SwapV2Accounts {
    /// The handles in the order that the program expects.
    pub open spec fn handles(self) -> Seq<AccountHandle> {
        seq![
            self.pool_account_0,
            self.pool_account_1,
            self.pool_account_2,
            self.pool_account_3,
            self.pool_account_4,
            self.pool_account_5,
            self.clock,
            self.token_program_1,
            self.token_program_2,
            self.instructions_sysvar,
            self.quote_mint,
            self.base_mint,
            self.additional_account,
        ]
    }

    /// Takes the thirteen accounts from a list in the order of the schema. A
    /// list of any other length is refused.
    pub fn from_handles(handles: &[AccountHandle]) -> (r: Result<Self, SchemaArityError>)
        ensures
            handles@.len() == 13 ==> r is Ok && r->Ok_0.handles() == handles@,
            handles@.len() != 13 ==> r == Err::<Self, SchemaArityError>(
                SchemaArityError { expected: 13, found: handles@.len() as usize },
            ),
    {
        if handles.len() != SWAP_V2_ACCOUNTS_COUNT {
            return Err(
                SchemaArityError { expected: SWAP_V2_ACCOUNTS_COUNT, found: handles.len() },
            );
        }
        let accounts = SwapV2Accounts {
            pool_account_0: handles[0],
            pool_account_1: handles[1],
            pool_account_2: handles[2],
            pool_account_3: handles[3],
            pool_account_4: handles[4],
            pool_account_5: handles[5],
            clock: handles[6],
            token_program_1: handles[7],
            token_program_2: handles[8],
            instructions_sysvar: handles[9],
            quote_mint: handles[10],
            base_mint: handles[11],
            additional_account: handles[12],
        };
        assert(accounts.handles() =~= handles@);
        Ok(accounts)
    }

    /// The account list of the instruction: thirteen slots, each with the
    /// capability of the schema.
    pub fn to_instruction_accounts(&self) -> (list: [AccountMeta; 13])
        ensures
            list@ == account_list(self.handles(), SWAP_V2_SCHEMA@),
            list@.len() == SWAP_V2_ACCOUNTS_COUNT,
    {
        build_account_list(&self.to_views(), &SWAP_V2_SCHEMA)
    }

    /// The handles in the order that the program expects.
    pub fn to_views(&self) -> (views: [AccountHandle; 13])
        ensures
            views@ == self.handles(),
    {
        let views = [
            self.pool_account_0,
            self.pool_account_1,
            self.pool_account_2,
            self.pool_account_3,
            self.pool_account_4,
            self.pool_account_5,
            self.clock,
            self.token_program_1,
            self.token_program_2,
            self.instructions_sysvar,
            self.quote_mint,
            self.base_mint,
            self.additional_account,
        ];
        assert(views@ =~= self.handles());
        views
    }
}

/// The program's address.
pub fn program_id() -> (id: [u8; 32])
    ensures
        id@ == base58_decode_32(HUMIDIFI_PROGRAM@),
{
    decode_base58_32(HUMIDIFI_PROGRAM)
}

/// Whether `program_id` is this program's address.
pub fn is_humidifi_program(program_id: &[u8; 32]) -> (is_it: bool)
    ensures
        is_it == (program_id@ == base58_decode_32(HUMIDIFI_PROGRAM@)),
{
    let id = self::program_id();
    same_address(program_id, &id)
}

/// Builds the first swap instruction: this program, the nine accounts of
/// the schema, the payload of the arguments.
pub fn swap_v1(accounts: &SwapV1Accounts, args: &SwapArgs) -> (ix: Instruction<9>)
    ensures
        ix.program_id@ == base58_decode_32(HUMIDIFI_PROGRAM@),
        ix.accounts@ == account_list(accounts.handles(), SWAP_V1_SCHEMA@),
        ix.data@ == args.bytes_v1(),
{
    Instruction {
        program_id: program_id(),
        accounts: accounts.to_instruction_accounts(),
        data: args.to_bytes_v1(),
    }
}

/// Builds the second swap instruction: this program, the thirteen accounts
/// of the schema, the payload of the arguments.
pub fn swap_v2(accounts: &SwapV2Accounts, args: &SwapArgs) -> (ix: Instruction<13>)
    ensures
        ix.program_id@ == base58_decode_32(HUMIDIFI_PROGRAM@),
        ix.accounts@ == account_list(accounts.handles(), SWAP_V2_SCHEMA@),
        ix.data@ == args.bytes_v2(),
{
    Instruction {
        program_id: program_id(),
        accounts: accounts.to_instruction_accounts(),
        data: args.to_bytes_v2(),
    }
}

/// Builds the first swap instruction around a payload that the caller
/// already holds in its obfuscated form. The payload goes out unchanged.
pub fn swap_v1_raw(accounts: &SwapV1Accounts, raw_data: &[u8; 25]) -> (ix: Instruction<9>)
    ensures
        ix.program_id@ == base58_decode_32(HUMIDIFI_PROGRAM@),
        ix.accounts@ == account_list(accounts.handles(), SWAP_V1_SCHEMA@),
        ix.data@ == raw_data@,
{
    Instruction {
        program_id: program_id(),
        accounts: accounts.to_instruction_accounts(),
        data: *raw_data,
    }
}

/// Builds the second swap instruction around a payload that the caller
/// already holds in its obfuscated form. The payload goes out unchanged.
pub fn swap_v2_raw(accounts: &SwapV2Accounts, raw_data: &[u8; 25]) -> (ix: Instruction<13>)
    ensures
        ix.program_id@ == base58_decode_32(HUMIDIFI_PROGRAM@),
        ix.accounts@ == account_list(accounts.handles(), SWAP_V2_SCHEMA@),
        ix.data@ == raw_data@,
{
    Instruction {
        program_id: program_id(),
        accounts: accounts.to_instruction_accounts(),
        data: *raw_data,
    }
}

/// Offset of the amount in a token account.
pub const TOKEN_AMOUNT_OFFSET: usize = 64;

/// Size below which a buffer is not taken for a token account: mint, owner
/// and amount.
pub const TOKEN_ACCOUNT_MIN_SIZE: usize = 72;

/// Reads the balance of a token account: the little-endian integer at bytes
/// 64 to 72.
pub fn parse_token_account_balance(data: &[u8]) -> (balance: Option<u64>)
    ensures
        data@.len() >= 72 ==> balance == Some(u64_from_le(data@.subrange(64, 72))),
        data@.len() < 72 ==> balance is None,
{
    read_field_u64(data, TOKEN_ACCOUNT_MIN_SIZE, TOKEN_AMOUNT_OFFSET)
}

} // verus!
