//! The program identity: the address under which the host runtime invokes
//! this program, handed in anew on every call and never constructed locally.

use vstd::prelude::*;

verus! {

/// A program's own address: a fixed-size opaque identifier of 32 bytes,
/// supplied by the host runtime for the duration of one invocation.
#[derive(Clone, Copy)]
pub struct ProgramId {
    bytes: [u8; 32],
}

impl View for ProgramId {
    type V = Seq<u8>;

    closed spec fn view(&self) -> Seq<u8> {
        self.bytes@
    }
}

impl ProgramId {
    /// Wraps the 32 address bytes the host handed over.
    pub fn new(bytes: [u8; 32]) -> (r: ProgramId)
        ensures
            r@ == bytes@,
    {
        ProgramId { bytes }
    }

    /// Hands the 32 address bytes back out, unchanged.
    pub fn to_bytes(&self) -> (r: [u8; 32])
        ensures
            r@ == self@,
    {
        self.bytes
    }
}

/// Every program identity holds exactly 32 bytes; the type admits no other.
pub proof fn lemma_identity_is_32_bytes(id: ProgramId)
    ensures
        id@.len() == 32,
{
}

/// The base58 text that the ledger ecosystem renders a 32-byte address as.
/// The encoder decides it; it is a function of the address bytes alone.
pub uninterp spec fn base58_of(bytes: Seq<u8>) -> Seq<char>;

/// Relies on solana_program::pubkey::Pubkey's Display impl (its Debug impl
/// writes the same text through the same helper): the base58 rendering of
/// the 32 address bytes, depending on those bytes alone.
#[verifier::external_body]
pub(crate) fn render_identity(id: &ProgramId) -> (r: String)
    ensures
        r@ == base58_of(id@),
{
    solana_program::pubkey::Pubkey::new_from_array(id.bytes).to_string()
}

} // verus!
