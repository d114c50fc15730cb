//! Account addresses.

use vstd::prelude::*;
use vstd::std_specs::cmp::PartialEqSpecImpl;

verus! {

/// The address of an account: the thirty-two bytes of its public key.
///
/// An address names an account and, where the host has checked a signature
/// made with the matching private key, the principal that authorised an
/// operation. Two addresses are the same exactly when their bytes are.
#[derive(Clone, Copy, Debug)]
pub struct Pubkey {
    pub bytes: [u8; 32],
}

impl View for Pubkey {
    type V = Seq<u8>;

    open spec fn view(&self) -> Seq<u8> {
        self.bytes@
    }
}

impl PartialEq for Pubkey {
    fn eq(&self, other: &Pubkey) -> (same: bool) {
        let mut i: usize = 0;
        while i < 32
            invariant
                i <= 32,
                forall|j: int| 0 <= j < i ==> self.bytes[j] == other.bytes[j],
            decreases 32 - i,
        {
            if self.bytes[i] != other.bytes[i] {
                return false;
            }
            i += 1;
        }
        assert(self.bytes =~= other.bytes);
        true
    }
}

impl Eq for Pubkey {

}

impl PartialEqSpecImpl for Pubkey {
    open spec fn obeys_eq_spec() -> bool {
        true
    }

    open spec fn eq_spec(&self, other: &Pubkey) -> bool {
        *self == *other
    }
}

/// The text that the Solana program library prints for the address with the
/// given bytes: their base-58 encoding in the Bitcoin alphabet.
pub uninterp spec fn base58_text(bytes: Seq<u8>) -> Seq<char>;

/// Formats the address with `Display` of `solana_program::pubkey::Pubkey`,
/// which encodes the thirty-two bytes with `bs58`. The contract only gives
/// the text a name: it is a function of the bytes alone, and nothing here
/// says which characters it holds.
#[verifier::external_body]
fn display_address(key: &Pubkey) -> (text: String)
    ensures
        text@ == base58_text(key@),
{
    anchor_lang::prelude::Pubkey::new_from_array(key.bytes).to_string()
}

impl Pubkey {
    /// The address with the given bytes.
    pub fn new_from_array(bytes: [u8; 32]) -> (key: Pubkey)
        ensures
            key.bytes == bytes,
    {
        Pubkey { bytes }
    }

    /// The bytes of the address.
    pub fn to_bytes(&self) -> (bytes: [u8; 32])
        ensures
            bytes == self.bytes,
    {
        self.bytes
    }

    /// The address as the text under which wallets and explorers show it.
    pub fn to_base58(&self) -> (text: String)
        ensures
            text@ == base58_text(self@),
    {
        display_address(self)
    }

    /// Two addresses are equal exactly when they hold the same bytes.
    pub proof fn lemma_eq_by_bytes(self, other: Pubkey)
        ensures
            (self == other) <==> (self@ == other@),
    {
        if self@ == other@ {
            assert(self.bytes =~= other.bytes);
        }
    }
}

} // verus!
