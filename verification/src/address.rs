//! Addresses: 32-byte identifiers, written in source as base58 text.

use vstd::prelude::*;

verus! {

/// HumidiFi program.
pub const HUMIDIFI_PROGRAM: &'static str = "9H6tua7jkLhdm3w8BvgpTn5LZNU7g4ZynDmCiNN3q6Rp";

/// SolFi V2 program.
pub const SOLFI_V2_PROGRAM: &'static str = "SV2EYYJyRz2YhfXwXnhNAevDEui5Q6yrfyo13WtupPF";

/// SPL Token program.
pub const TOKEN_PROGRAM: &'static str = "TokenkegQfeZyiNwAJbNbGKPFXCWuBvf9Ss623VQ5DA";

/// SPL Token-2022 program.
pub const TOKEN_2022_PROGRAM: &'static str = "TokenzQdBNbLqP5VEhdkAS6EPFLC1PHnBqCXEpPxuEb";

/// Clock sysvar.
pub const CLOCK_SYSVAR: &'static str = "SysvarC1ock11111111111111111111111111111111";

/// Instructions sysvar.
pub const INSTRUCTIONS_SYSVAR: &'static str = "Sysvar1nstructions1111111111111111111111111";

/// SolFi V2 pool PUMP-USDC.
pub const POOL_PUMP_USDC: &'static str = "2kfQuYG2FVZL2RqqKEttcdadbPWP4c7b6AFQztNcBWyV";

/// SolFi V2 pool WSOL-USDC.
pub const POOL_WSOL_USDC: &'static str = "65ZHSArs5XxPseKQbB1B4r16vDxMWnCxHMzogDAqiDUc";

/// SolFi V2 pool USDT-USDC.
pub const POOL_USDT_USDC: &'static str = "FkEB6uvyzuoaGpgs4yRtFtxC4WJxhejNFbUkj5R6wR32";

/// SolFi V2 pool ZEC-USDC.
pub const POOL_ZEC_USDC: &'static str = "BjBHvbqgQCRmvZ6u3VzGrHn3QZ1NfmMRujoqjeaK6fLT";

/// SolFi V2 pool MON-USDC.
pub const POOL_MON_USDC: &'static str = "2Q6S8p9iZNzMvpTemiC56HqCJ3F3szNoyRkvqEKfCanY";

/// SolFi V2 pool HYPE-USDC.
pub const POOL_HYPE_USDC: &'static str = "2e25gRiddjn968aXrLt1oZw3BZ4fYD5D8mCv7uKxu1yL";

/// SolFi V2 pool zenZEC-USDC.
pub const POOL_ZENZEC_USDC: &'static str = "7TKsqWxU9QkPYVLdjjR1V67ky3FnYogjntUpNLexib4E";

/// The 32 bytes that a base58 text of an address stands for.
pub uninterp spec fn base58_decode_32(encoded: Seq<char>) -> Seq<u8>;

/// The base58 texts that this crate compiles in. Each is the text of a
/// 32-byte address.
pub open spec fn is_compiled_in(encoded: Seq<char>) -> bool {
    ||| encoded == HUMIDIFI_PROGRAM@
    ||| encoded == SOLFI_V2_PROGRAM@
    ||| encoded == TOKEN_PROGRAM@
    ||| encoded == TOKEN_2022_PROGRAM@
    ||| encoded == CLOCK_SYSVAR@
    ||| encoded == INSTRUCTIONS_SYSVAR@
    ||| encoded == POOL_PUMP_USDC@
    ||| encoded == POOL_WSOL_USDC@
    ||| encoded == POOL_USDT_USDC@
    ||| encoded == POOL_ZEC_USDC@
    ||| encoded == POOL_MON_USDC@
    ||| encoded == POOL_HYPE_USDC@
    ||| encoded == POOL_ZENZEC_USDC@
}

/// Calls `five8_const::decode_32_const`, which decodes base58 text into 32
/// bytes and panics on text that is not the base58 form of exactly 32 bytes.
/// Trusted: the result is the decoding of the text, a function of the text
/// alone; the texts admitted are the compiled-in ones, all well-formed.
#[verifier::external_body]
pub(crate) fn decode_base58_32(encoded: &str) -> (out: [u8; 32])
    requires
        is_compiled_in(encoded@),
    ensures
        out@ == base58_decode_32(encoded@),
{
    five8_const::decode_32_const(encoded)
}

/// Whether two addresses are the same 32 bytes.
pub fn same_address(a: &[u8; 32], b: &[u8; 32]) -> (same: bool)
    ensures
        same == (a@ == b@),
{
    let mut i: usize = 0;
    while i < 32
        invariant
            i <= 32,
            forall|k: int| 0 <= k < i ==> a@[k] == b@[k],
        decreases 32 - i,
    {
        if a[i] != b[i] {
            return false;
        }
        i += 1;
    }
    assert(a@ =~= b@);
    true
}

/// The address of the SPL Token program.
pub fn token_program() -> (out: [u8; 32])
    ensures
        out@ == base58_decode_32(TOKEN_PROGRAM@),
{
    decode_base58_32(TOKEN_PROGRAM)
}

/// The address of the SPL Token-2022 program.
pub fn token_2022_program() -> (out: [u8; 32])
    ensures
        out@ == base58_decode_32(TOKEN_2022_PROGRAM@),
{
    decode_base58_32(TOKEN_2022_PROGRAM)
}

/// The address of the clock sysvar.
pub fn clock_sysvar() -> (out: [u8; 32])
    ensures
        out@ == base58_decode_32(CLOCK_SYSVAR@),
{
    decode_base58_32(CLOCK_SYSVAR)
}

/// The address of the instructions sysvar.
pub fn instructions_sysvar() -> (out: [u8; 32])
    ensures
        out@ == base58_decode_32(INSTRUCTIONS_SYSVAR@),
{
    decode_base58_32(INSTRUCTIONS_SYSVAR)
}

} // verus!
