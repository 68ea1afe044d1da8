//! The registry of programs: classifies an observed program address.

use vstd::prelude::*;
use crate::address::{base58_decode_32, same_address, HUMIDIFI_PROGRAM, SOLFI_V2_PROGRAM};

verus! {

/// A program that this crate can build instructions for.
#[derive(Clone, Copy, Debug, PartialEq, Eq, Structural)]
pub enum Protocol {
    HumidiFi,
    SolFiV2,
}

impl Protocol {
    /// The base58 text of the program's address.
    pub open spec fn base58(self) -> Seq<char> {
        match self {
            Protocol::HumidiFi => HUMIDIFI_PROGRAM@,
            Protocol::SolFiV2 => SOLFI_V2_PROGRAM@,
        }
    }

    /// The program's address.
    pub fn program_id(self) -> (id: [u8; 32])
        ensures
            id@ == base58_decode_32(self.base58()),
    {
        match self {
            Protocol::HumidiFi => crate::humidifi::program_id(),
            Protocol::SolFiV2 => crate::solfi_v2::program_id(),
        }
    }
}

/// The protocol whose program has the given address, taken in the order of
/// the registry. An address of no known program is a miss, not an error.
pub open spec fn classify(
    program_id: Seq<u8>,
    humidifi: Seq<u8>,
    solfi_v2: Seq<u8>,
) -> Option<Protocol> {
    if program_id == humidifi {
        Some(Protocol::HumidiFi)
    } else if program_id == solfi_v2 {
        Some(Protocol::SolFiV2)
    } else {
        None
    }
}

/// Classifies a program address against the addresses of the two programs.
pub fn classify_among(
    program_id: &[u8; 32],
    humidifi: &[u8; 32],
    solfi_v2: &[u8; 32],
) -> (protocol: Option<Protocol>)
    ensures
        protocol == classify(program_id@, humidifi@, solfi_v2@),
{
    if same_address(program_id, humidifi) {
        Some(Protocol::HumidiFi)
    } else if same_address(program_id, solfi_v2) {
        Some(Protocol::SolFiV2)
    } else {
        None
    }
}

/// Classifies a program address against the registry.
pub fn identify(program_id: &[u8; 32]) -> (protocol: Option<Protocol>)
    ensures
        protocol == classify(
            program_id@,
            base58_decode_32(HUMIDIFI_PROGRAM@),
            base58_decode_32(SOLFI_V2_PROGRAM@),
        ),
{
    let humidifi = Protocol::HumidiFi.program_id();
    let solfi_v2 = Protocol::SolFiV2.program_id();
    classify_among(program_id, &humidifi, &solfi_v2)
}

} // verus!
