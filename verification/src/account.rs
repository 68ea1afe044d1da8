//! Account schemas: the capability that an instruction asks of each account
//! slot, and the ordered list that goes out with the instruction.

use vstd::prelude::*;

verus! {

/// What an instruction may do with the account in one slot.
#[derive(Clone, Copy, Debug, PartialEq, Eq, Structural)]
pub enum Capability {
    /// Read only, no signature.
    Readonly,
    /// May be written, no signature.
    Writable,
    /// Read only, and must have signed.
    ReadonlySigner,
}

impl Capability {
    /// Whether the slot is writable.
    pub fn is_writable(self) -> (w: bool)
        ensures
            w == (self == Capability::Writable),
    {
        match self {
            Capability::Writable => true,
            Capability::Readonly => false,
            Capability::ReadonlySigner => false,
        }
    }

    /// Whether the slot must have signed.
    pub fn is_signer(self) -> (s: bool)
        ensures
            s == (self == Capability::ReadonlySigner),
    {
        match self {
            Capability::ReadonlySigner => true,
            Capability::Readonly => false,
            Capability::Writable => false,
        }
    }
}

/// The caller supplied a number of accounts other than the schema's.
#[derive(Clone, Copy, Debug, PartialEq, Eq, Structural)]
pub struct SchemaArityError {
    /// The number of accounts that the schema fixes.
    pub expected: usize,
    /// The number of accounts that were supplied.
    pub found: usize,
}

/// An account as the caller supplies it: its address and what the
/// transaction grants on it. The data behind it is never read here.
#[derive(Clone, Copy, Debug, PartialEq, Eq)]
pub struct AccountHandle {
    pub address: [u8; 32],
    pub is_signer: bool,
    pub is_writable: bool,
}

/// One slot of an instruction's account list.
#[derive(Clone, Copy, Debug, PartialEq, Eq)]
pub struct AccountMeta {
    pub address: [u8; 32],
    pub capability: Capability,
}

impl AccountMeta {
    /// A slot for `address` with the given capability.
    pub fn new(address: [u8; 32], capability: Capability) -> (meta: Self)
        ensures
            meta == (AccountMeta { address, capability }),
    {
        AccountMeta { address, capability }
    }

    /// A read-only slot.
    pub fn readonly(address: [u8; 32]) -> (meta: Self)
        ensures
            meta == (AccountMeta { address, capability: Capability::Readonly }),
    {
        AccountMeta { address, capability: Capability::Readonly }
    }

    /// A writable slot.
    pub fn writable(address: [u8; 32]) -> (meta: Self)
        ensures
            meta == (AccountMeta { address, capability: Capability::Writable }),
    {
        AccountMeta { address, capability: Capability::Writable }
    }

    /// A read-only slot whose account must have signed.
    pub fn readonly_signer(address: [u8; 32]) -> (meta: Self)
        ensures
            meta == (AccountMeta { address, capability: Capability::ReadonlySigner }),
    {
        AccountMeta { address, capability: Capability::ReadonlySigner }
    }
}

/// The account list that a schema makes of the handles: slot `i` carries the
/// address of handle `i` and the capability that the schema fixes for it.
pub open spec fn account_list(
    handles: Seq<AccountHandle>,
    schema: Seq<Capability>,
) -> Seq<AccountMeta> {
    Seq::new(
        schema.len(),
        |i: int| (AccountMeta { address: handles[i].address, capability: schema[i] }),
    )
}

/// Builds the account list of a schema from the handles, slot by slot.
pub fn build_account_list<const N: usize>(
    handles: &[AccountHandle; N],
    schema: &[Capability; N],
) -> (list: [AccountMeta; N])
    ensures
        list@ == account_list(handles@, schema@),
{
    let mut list: [AccountMeta; N] = [AccountMeta::readonly([0u8; 32]); N];
    let mut i: usize = 0;
    while i < N
        invariant
            i <= N,
            list@.len() == N,
            forall|k: int|
                0 <= k < i ==> list@[k] == (AccountMeta {
                    address: handles@[k].address,
                    capability: schema@[k],
                }),
        decreases N - i,
    {
        list[i] = AccountMeta::new(handles[i].address, schema[i]);
        i += 1;
    }
    assert(list@ =~= account_list(handles@, schema@));
    list
}

/// A complete instruction for one program: what is handed to the runtime's
/// invocation mechanism. Every payload that this crate builds is 25 bytes.
#[derive(Clone, Copy, Debug, PartialEq, Eq)]
pub struct Instruction<const N: usize> {
    pub program_id: [u8; 32],
    pub accounts: [AccountMeta; N],
    pub data: [u8; 25],
}

} // verus!
