use dex_cpi::account::{AccountHandle, AccountMeta, Capability, SchemaArityError};
use dex_cpi::registry::{classify_among, identify, Protocol};
use dex_cpi::address::{clock_sysvar, instructions_sysvar, same_address, token_2022_program, token_program};
use dex_cpi::solfi_v2::{
    calculate_output_amount, calculate_output_with_fee, get_pool_reserves, is_solfi_v2_program,
    is_valid_market_type, parse_base_vault, parse_market_type, parse_quote_vault,
    parse_token_account_balance, program_id, swap, swap_raw, KnownPool, MarketStateLayout,
    SwapAccounts, SwapArgs, SwapSide, ERROR_ORACLE_EXPIRED, ERROR_STALE_DATA, SWAP_ACCOUNTS_COUNT,
    SWAP_DATA_SIZE, SWAP_INSTRUCTION_ID, SWAP_SCHEMA,
};

const PROGRAM: [u8; 32] = [
    6, 135, 52, 55, 180, 251, 201, 244, 4, 55, 221, 60, 230, 63, 156, 254, 140, 36, 132, 3, 85,
    147, 161, 39, 129, 186, 42, 151, 190, 52, 22, 150,
];

fn handle(tag: u8) -> AccountHandle {
    AccountHandle { address: [tag; 32], is_signer: false, is_writable: tag % 2 == 1 }
}

fn accounts() -> SwapAccounts {
    SwapAccounts {
        market_state: handle(0),
        authority: handle(1),
        base_vault: handle(2),
        quote_vault: handle(3),
        user_base_account: handle(4),
        user_quote_account: handle(5),
        fee_receiver: handle(6),
        referral_account: handle(7),
        base_mint: handle(8),
        quote_mint: handle(9),
        token_program: handle(10),
        token_program_2: handle(11),
        sysvar_instructions: handle(12),
    }
}

fn token_account(amount: u64) -> Vec<u8> {
    let mut data = vec![0u8; 165];
    data[64..72].copy_from_slice(&amount.to_le_bytes());
    data
}

#[test]
fn test_swap_data_serialization() {
    let args = SwapArgs::sell(1_000_000, 0);
    let data = args.to_bytes();

    assert_eq!(data.len(), 25);
    assert_eq!(data[0], 0x07);
    assert_eq!(u64::from_le_bytes(data[1..9].try_into().unwrap()), 1_000_000);
    assert_eq!(u64::from_le_bytes(data[9..17].try_into().unwrap()), 0);
    assert_eq!(u64::from_le_bytes(data[17..25].try_into().unwrap()), 1);
}

#[test]
fn test_swap_side() {
    assert_eq!(SwapSide::Buy.to_u64(), 0);
    assert_eq!(SwapSide::Sell.to_u64(), 1);
    assert_eq!(SwapSide::from_is_sell(false), SwapSide::Buy);
    assert_eq!(SwapSide::from_is_sell(true), SwapSide::Sell);
}

#[test]
fn test_output_calculation() {
    let output = calculate_output_amount(1000, 10000, 10000);
    assert_eq!(output, 909);
}

#[test]
fn sell_payload_is_the_literal_bytes() {
    let data = SwapArgs::sell(1_000_000, 0).to_bytes();
    assert_eq!(
        data,
        [7, 0x40, 0x42, 0x0f, 0, 0, 0, 0, 0, 0, 0, 0, 0, 0, 0, 0, 0, 1, 0, 0, 0, 0, 0, 0, 0]
    );
    assert_eq!(data.len(), SWAP_DATA_SIZE);
    assert_eq!(SWAP_INSTRUCTION_ID, 7);
}

#[test]
fn buy_payload_and_constructors() {
    let buy = SwapArgs::buy(0x0102_0304_0506_0708, u64::MAX);
    assert_eq!(buy.amount_in, 0x0102_0304_0506_0708);
    assert_eq!(buy.min_amount_out, u64::MAX);
    assert_eq!(buy.side, SwapSide::Buy);
    assert_eq!(
        buy.to_bytes(),
        [
            7, 8, 7, 6, 5, 4, 3, 2, 1, 255, 255, 255, 255, 255, 255, 255, 255, 0, 0, 0, 0, 0, 0,
            0, 0
        ]
    );
    let same = SwapArgs::new(0x0102_0304_0506_0708, u64::MAX, SwapSide::Buy);
    assert_eq!(same.to_bytes(), buy.to_bytes());
    assert_eq!(SwapArgs::sell(5, 6).side, SwapSide::Sell);
}

#[test]
fn swap_account_list_follows_the_schema() {
    let list = accounts().to_instruction_accounts();
    assert_eq!(list.len(), 13);
    assert_eq!(SWAP_ACCOUNTS_COUNT, 13);
    let expected = [
        Capability::Writable,
        Capability::Readonly,
        Capability::Writable,
        Capability::Writable,
        Capability::Writable,
        Capability::Writable,
        Capability::Writable,
        Capability::Readonly,
        Capability::Readonly,
        Capability::Readonly,
        Capability::Readonly,
        Capability::Readonly,
        Capability::Readonly,
    ];
    assert_eq!(SWAP_SCHEMA, expected);
    for i in 0..13 {
        assert_eq!(list[i], AccountMeta { address: [i as u8; 32], capability: expected[i] });
    }
    let views = accounts().to_views();
    for i in 0..13 {
        assert_eq!(views[i], handle(i as u8));
    }
}

#[test]
fn capabilities_as_flags() {
    assert!(!Capability::Readonly.is_writable());
    assert!(!Capability::Readonly.is_signer());
    assert!(Capability::Writable.is_writable());
    assert!(!Capability::Writable.is_signer());
    assert!(!Capability::ReadonlySigner.is_writable());
    assert!(Capability::ReadonlySigner.is_signer());
    assert_eq!(AccountMeta::readonly([3; 32]).capability, Capability::Readonly);
    assert_eq!(AccountMeta::writable([3; 32]).capability, Capability::Writable);
    assert_eq!(AccountMeta::readonly_signer([3; 32]).capability, Capability::ReadonlySigner);
    assert_eq!(AccountMeta::new([3; 32], Capability::Writable), AccountMeta::writable([3; 32]));
}

#[test]
fn swap_instruction_is_composed() {
    let args = SwapArgs::sell(1_000_000, 0);
    let ix = swap(&accounts(), &args);
    assert_eq!(ix.program_id, PROGRAM);
    assert_eq!(ix.accounts, accounts().to_instruction_accounts());
    assert_eq!(ix.data, args.to_bytes());

    let raw = swap_raw(&accounts(), 1_000_000, 0, true);
    assert_eq!(raw, ix);
    let raw = swap_raw(&accounts(), 77, 5, false);
    assert_eq!(raw.data, SwapArgs::buy(77, 5).to_bytes());
}

#[test]
fn solfi_program_identity() {
    assert_eq!(program_id(), PROGRAM);
    assert!(is_solfi_v2_program(&PROGRAM));
    assert!(!is_solfi_v2_program(&[0u8; 32]));
    assert!(!is_solfi_v2_program(&dex_cpi::humidifi::program_id()));
}

#[test]
fn compiled_in_addresses() {
    assert_eq!(
        token_program(),
        [
            6, 221, 246, 225, 215, 101, 161, 147, 217, 203, 225, 70, 206, 235, 121, 172, 28, 180,
            133, 237, 95, 91, 55, 145, 58, 140, 245, 133, 126, 255, 0, 169
        ]
    );
    assert_eq!(
        token_2022_program(),
        [
            6, 221, 246, 225, 238, 117, 143, 222, 24, 66, 93, 188, 228, 108, 205, 218, 182, 26,
            252, 77, 131, 185, 13, 39, 254, 189, 249, 40, 216, 161, 139, 252
        ]
    );
    assert_eq!(
        clock_sysvar(),
        [
            6, 167, 213, 23, 24, 199, 116, 201, 40, 86, 99, 152, 105, 29, 94, 182, 139, 94, 184,
            163, 155, 75, 109, 92, 115, 85, 91, 33, 0, 0, 0, 0
        ]
    );
    assert_eq!(
        instructions_sysvar(),
        [
            6, 167, 213, 23, 24, 123, 209, 102, 53, 218, 212, 4, 85, 253, 194, 192, 193, 36, 198,
            143, 33, 86, 117, 165, 219, 186, 203, 95, 8, 0, 0, 0
        ]
    );
    assert!(same_address(&token_program(), &token_program()));
    assert!(!same_address(&token_program(), &token_2022_program()));
}

#[test]
fn known_pools() {
    assert_eq!(
        KnownPool::PumpUsdc.address(),
        [
            26, 11, 24, 48, 216, 233, 176, 89, 21, 56, 215, 109, 235, 7, 97, 113, 24, 168, 51, 30,
            109, 62, 39, 194, 120, 161, 232, 249, 98, 245, 195, 0
        ]
    );
    assert_eq!(
        KnownPool::WsolUsdc.address(),
        [
            75, 117, 66, 193, 72, 85, 240, 37, 210, 202, 183, 21, 220, 75, 79, 80, 208, 172, 64,
            155, 215, 164, 26, 130, 25, 74, 27, 16, 150, 85, 70, 121
        ]
    );
    assert_eq!(
        KnownPool::UsdtUsdc.address(),
        [
            219, 22, 124, 227, 58, 225, 55, 86, 19, 63, 210, 230, 174, 2, 48, 249, 100, 195, 101,
            70, 245, 214, 53, 133, 155, 32, 99, 149, 254, 189, 171, 149
        ]
    );
    assert_eq!(
        KnownPool::ZecUsdc.address(),
        [
            159, 98, 230, 116, 128, 19, 164, 159, 143, 229, 233, 8, 84, 244, 166, 164, 152, 94,
            250, 171, 110, 83, 36, 247, 20, 145, 231, 232, 195, 232, 147, 136
        ]
    );
    assert_eq!(
        KnownPool::MonUsdc.address(),
        [
            20, 198, 48, 101, 172, 130, 60, 100, 201, 174, 105, 225, 83, 141, 94, 207, 116, 200,
            149, 206, 106, 240, 234, 69, 170, 157, 120, 231, 135, 44, 13, 141
        ]
    );
    assert_eq!(
        KnownPool::HypeUsdc.address(),
        [
            24, 87, 102, 23, 146, 61, 26, 60, 119, 192, 148, 204, 255, 190, 38, 10, 127, 179, 124,
            251, 160, 146, 19, 138, 175, 165, 248, 162, 203, 100, 47, 147
        ]
    );
    assert_eq!(
        KnownPool::ZenZecUsdc.address(),
        [
            95, 228, 144, 249, 189, 159, 176, 203, 144, 215, 31, 228, 47, 124, 47, 141, 12, 22,
            163, 159, 113, 119, 8, 30, 101, 53, 173, 132, 24, 220, 178, 187
        ]
    );
    assert_eq!(KnownPool::PumpUsdc.market_type(), 0xFF);
    assert_eq!(KnownPool::WsolUsdc.market_type(), 0xFF);
    assert_eq!(KnownPool::ZecUsdc.market_type(), 0xFF);
    assert_eq!(KnownPool::MonUsdc.market_type(), 0xFE);
    assert_eq!(KnownPool::ZenZecUsdc.market_type(), 0xFE);
    assert_eq!(KnownPool::HypeUsdc.market_type(), 0xFD);
    assert_eq!(KnownPool::UsdtUsdc.market_type(), 0xFC);
}

#[test]
fn market_types() {
    assert!(is_valid_market_type(0xFF));
    assert!(is_valid_market_type(0xFE));
    assert!(is_valid_market_type(0xFD));
    assert!(is_valid_market_type(0xFC));
    assert!(!is_valid_market_type(0xFB));
    assert!(!is_valid_market_type(0));
    assert!(!is_valid_market_type(7));
    assert_eq!(ERROR_STALE_DATA, 23);
    assert_eq!(ERROR_ORACLE_EXPIRED, 23);
}

#[test]
fn market_state_fields() {
    let mut data = vec![0u8; MarketStateLayout::MIN_SIZE];
    data[0] = 0xFD;
    for i in 0..32 {
        data[72 + i] = 100 + i as u8;
        data[104 + i] = 200 + i as u8;
    }
    let before = data.clone();
    assert_eq!(parse_market_type(&data), Some(0xFD));
    let mut base = [0u8; 32];
    let mut quote = [0u8; 32];
    for i in 0..32 {
        base[i] = 100 + i as u8;
        quote[i] = 200 + i as u8;
    }
    assert_eq!(parse_base_vault(&data), Some(base));
    assert_eq!(parse_quote_vault(&data), Some(quote));
    assert_eq!(data, before);
    data.resize(MarketStateLayout::SIZE, 0);
    assert_eq!(parse_base_vault(&data), Some(base));
}

#[test]
fn market_state_one_byte_short_is_unavailable() {
    let mut data = vec![0u8; MarketStateLayout::MIN_SIZE - 1];
    data[0] = 0xFF;
    assert_eq!(data.len(), 199);
    assert_eq!(parse_market_type(&data), None);
    assert_eq!(parse_base_vault(&data), None);
    assert_eq!(parse_quote_vault(&data), None);
    assert_eq!(parse_market_type(&[]), None);
    assert_eq!(parse_base_vault(&[]), None);
}

#[test]
fn token_balance_and_reserves() {
    assert_eq!(parse_token_account_balance(&token_account(42)), Some(42));
    assert_eq!(parse_token_account_balance(&token_account(u64::MAX)), Some(u64::MAX));
    assert_eq!(parse_token_account_balance(&token_account(42)[..71]), None);
    assert_eq!(parse_token_account_balance(&token_account(42)[..72]), Some(42));
    assert_eq!(
        get_pool_reserves(&token_account(1_000), &token_account(2_000)),
        Some((1_000, 2_000))
    );
    assert_eq!(get_pool_reserves(&token_account(1_000)[..71], &token_account(2_000)), None);
    assert_eq!(get_pool_reserves(&token_account(1_000), &[]), None);
    assert_eq!(get_pool_reserves(&[], &[]), None);
}

#[test]
fn output_amount_edges() {
    assert_eq!(calculate_output_amount(0, 10000, 10000), 0);
    assert_eq!(calculate_output_amount(1000, 0, 10000), 0);
    assert_eq!(calculate_output_amount(1000, 10000, 0), 0);
    assert_eq!(calculate_output_amount(1, 1, 1), 0);
    assert_eq!(calculate_output_amount(1, 1, 2), 1);
    assert_eq!(calculate_output_amount(u64::MAX, u64::MAX, u64::MAX), 9_223_372_036_854_775_807);
    assert_eq!(calculate_output_amount(u64::MAX, 1, u64::MAX), u64::MAX - 1);
}

#[test]
fn output_amount_with_fee() {
    assert_eq!(calculate_output_with_fee(1000, 10000, 10000, 30), 906);
    assert_eq!(calculate_output_with_fee(1000, 10000, 10000, 0), 909);
    assert_eq!(calculate_output_with_fee(1000, 10000, 10000, 10000), 0);
    assert_eq!(calculate_output_with_fee(1000, 10000, 10000, u64::MAX), 0);
    assert_eq!(calculate_output_with_fee(0, 10000, 10000, 30), 0);
    assert_eq!(calculate_output_with_fee(1000, 0, 10000, 30), 0);
    assert_eq!(calculate_output_with_fee(1000, 10000, 0, 30), 0);
    assert_eq!(
        calculate_output_with_fee(u64::MAX, u64::MAX, u64::MAX, 0),
        9_223_372_036_854_775_807
    );
}

#[test]
fn swap_accounts_from_a_list() {
    let list: Vec<AccountHandle> = (0..13).map(handle).collect();
    let accounts = SwapAccounts::from_handles(&list).unwrap();
    assert_eq!(accounts.to_views().to_vec(), list);
    assert_eq!(accounts.market_state, handle(0));
    assert_eq!(accounts.sysvar_instructions, handle(12));
    assert_eq!(
        SwapAccounts::from_handles(&list[..9]).err(),
        Some(SchemaArityError { expected: 13, found: 9 })
    );
    let longer: Vec<AccountHandle> = (0..14).map(handle).collect();
    assert_eq!(
        SwapAccounts::from_handles(&longer).err(),
        Some(SchemaArityError { expected: 13, found: 14 })
    );
}

#[test]
fn registry_classifies_program_addresses() {
    assert_eq!(identify(&PROGRAM), Some(Protocol::SolFiV2));
    assert_eq!(identify(&dex_cpi::humidifi::program_id()), Some(Protocol::HumidiFi));
    assert_eq!(identify(&token_program()), None);
    assert_eq!(identify(&[0u8; 32]), None);
    assert_eq!(Protocol::SolFiV2.program_id(), PROGRAM);
    assert_eq!(Protocol::HumidiFi.program_id(), dex_cpi::humidifi::program_id());
}

#[test]
fn capabilities_agree_with_the_runtime_constructors() {
    let address = pinocchio::Address::new_from_array([9u8; 32]);
    let readonly = pinocchio::instruction::InstructionAccount::readonly(&address);
    let writable = pinocchio::instruction::InstructionAccount::writable(&address);
    let signer = pinocchio::instruction::InstructionAccount::readonly_signer(&address);
    let ours = [
        AccountMeta::readonly([9u8; 32]),
        AccountMeta::writable([9u8; 32]),
        AccountMeta::readonly_signer([9u8; 32]),
    ];
    let theirs = [readonly, writable, signer];
    for i in 0..3 {
        assert_eq!(ours[i].capability.is_writable(), theirs[i].is_writable);
        assert_eq!(ours[i].capability.is_signer(), theirs[i].is_signer);
        assert_eq!(ours[i].address, theirs[i].address.to_bytes());
    }
}

#[test]
fn program_ids_agree_with_the_base58_decoder() {
    assert_eq!(
        program_id(),
        five8_const::decode_32_const("SV2EYYJyRz2YhfXwXnhNAevDEui5Q6yrfyo13WtupPF")
    );
    assert_eq!(
        dex_cpi::humidifi::program_id(),
        five8_const::decode_32_const("9H6tua7jkLhdm3w8BvgpTn5LZNU7g4ZynDmCiNN3q6Rp")
    );
    assert_eq!(dex_cpi::address::SOLFI_V2_PROGRAM, "SV2EYYJyRz2YhfXwXnhNAevDEui5Q6yrfyo13WtupPF");
    assert_eq!(dex_cpi::address::HUMIDIFI_PROGRAM, "9H6tua7jkLhdm3w8BvgpTn5LZNU7g4ZynDmCiNN3q6Rp");
}

#[test]
fn classification_takes_the_first_match() {
    let a = [1u8; 32];
    let b = [2u8; 32];
    assert_eq!(classify_among(&a, &a, &b), Some(Protocol::HumidiFi));
    assert_eq!(classify_among(&b, &a, &b), Some(Protocol::SolFiV2));
    assert_eq!(classify_among(&a, &a, &a), Some(Protocol::HumidiFi));
    assert_eq!(classify_among(&[3u8; 32], &a, &b), None);
}
