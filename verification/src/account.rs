//! The accounts an operation reads, as plain values.
//!
//! An operation is handed a snapshot of each account it looks at: the address,
//! the owner and the balance as they stood when the operation began.

use vstd::prelude::*;

verus! {

/// A 32-byte account address.
#[derive(Clone, Copy, Debug, PartialEq, Eq)]
pub struct Address {
    pub bytes: [u8; 32],
}

impl View for Address {
    type V = Seq<u8>;

    open spec fn view(&self) -> Seq<u8> {
        self.bytes@
    }
}

/// The address of the system program: thirty-two zero bytes.
pub open spec fn system_program_address() -> Seq<u8> {
    Seq::new(32, |i: int| 0u8)
}

/// Reads `anchor_lang::system_program::ID`, the address under which the
/// system program is deployed, and hands its bytes back. The contract takes
/// on trust that the address is the all-zero one, which is what the base-58
/// string of thirty-two `1`s in its declaration decodes to.
#[verifier::external_body]
fn system_program_id() -> (id: Address)
    ensures
        id@ == system_program_address(),
{
    Address { bytes: anchor_lang::system_program::ID.to_bytes() }
}

impl Address {
    /// Wraps the bytes of an address.
    pub fn new(bytes: [u8; 32]) -> (address: Address)
        ensures
            address.bytes == bytes,
    {
        Address { bytes }
    }

    /// Whether two addresses hold the same bytes.
    pub fn same(&self, other: &Address) -> (equal: bool)
        ensures
            equal == (self@ == other@),
    {
        let mut i: usize = 0;
        while i < 32
            invariant
                i <= 32,
                forall|j: int| 0 <= j < i ==> self.bytes@[j] == other.bytes@[j],
            decreases 32 - i,
        {
            if self.bytes[i] != other.bytes[i] {
                return false;
            }
            i = i + 1;
        }
        assert(self@ =~= other@);
        true
    }

    /// Whether this is the address of the system program.
    pub fn is_system_program(&self) -> (yes: bool)
        ensures
            yes == (self@ == system_program_address()),
    {
        let id = system_program_id();
        self.same(&id)
    }
}

/// A vault that holds collateral as its own lamport balance.
#[derive(Clone, Copy, Debug, PartialEq, Eq)]
pub struct Vault {
    /// The program that owns the vault account.
    pub owner: Address,
    /// The vault's balance.
    pub lamports: u64,
}

/// The mint of the claim token.
#[derive(Clone, Copy, Debug, PartialEq, Eq)]
pub struct Mint {
    /// The mint's address.
    pub key: Address,
    /// Units of the claim token outstanding.
    pub supply: u64,
}

} // verus!
