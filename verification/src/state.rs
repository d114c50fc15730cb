//! The presale record.

use vstd::prelude::*;
use vstd::std_specs::cmp::PartialEqSpecImpl;
use crate::pubkey::Pubkey;

verus! {

/// The one record that a presale keeps.
///
/// Every combination of field values is a valid record. What the operations
/// guarantee is how it moves: `owner` is set when the record is created and
/// never changes again, and `rate`, `payment_wallet` and `is_paused` change
/// only at the owner's request.
#[derive(Clone, Copy, Debug)]
pub struct Presale {
    /// Who created the presale and alone may administer it.
    pub owner: Pubkey,
    /// Tokens per unit paid. The presale reports it with each purchase and
    /// computes nothing from it.
    pub rate: u64,
    /// Where purchases send their payment.
    pub payment_wallet: Pubkey,
    /// While set, purchases are refused.
    pub is_paused: bool,
}

impl PartialEq for Presale {
    fn eq(&self, other: &Presale) -> (same: bool) {
        self.owner == other.owner && self.rate == other.rate && self.payment_wallet
            == other.payment_wallet && self.is_paused == other.is_paused
    }
}

impl Eq for Presale {

}

impl PartialEqSpecImpl for Presale {
    open spec fn obeys_eq_spec() -> bool {
        true
    }

    open spec fn eq_spec(&self, other: &Presale) -> bool {
        *self == *other
    }
}

} // verus!
