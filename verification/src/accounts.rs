//! The accounts that the operations work on.
//!
//! The host keeps the accounts. For each operation it hands over what it
//! holds of the accounts that the operation names, and stores what comes back.
//! Each operation has a type of its own that lists those accounts.

use vstd::prelude::*;
use crate::pubkey::Pubkey;
use crate::state::Presale;

verus! {

/// An account as the host shows it: its address and its balance in lamports,
/// the smallest unit of the chain's currency.
#[derive(Clone, Copy, Debug)]
pub struct AccountInfo {
    pub key: Pubkey,
    pub lamports: u64,
}

/// An account whose holder has authorised the operation. The host has
/// checked the signature before it hands the account over.
#[derive(Clone, Copy, Debug)]
pub struct Signer {
    pub key: Pubkey,
    pub lamports: u64,
}

/// The account that stores a presale record and holds the presale's funds.
#[derive(Clone, Copy, Debug)]
pub struct PresaleAccount {
    /// The record.
    pub data: Presale,
    /// The balance of the account.
    pub lamports: u64,
    /// What the host requires the account to keep for its storage. It is
    /// part of the balance and cannot be withdrawn.
    pub min_balance: u64,
}

impl PresaleAccount {
    /// What the account holds beyond what it must keep: the most that can be
    /// withdrawn from it.
    pub open spec fn spec_available(&self) -> u64 {
        if self.lamports >= self.min_balance {
            (self.lamports - self.min_balance) as u64
        } else {
            0
        }
    }

    /// What the account holds beyond what it must keep: the most that can be
    /// withdrawn from it.
    #[verifier::when_used_as_spec(spec_available)]
    pub fn available(&self) -> (amount: u64)
        ensures
            amount == self.spec_available(),
    {
        if self.lamports >= self.min_balance {
            self.lamports - self.min_balance
        } else {
            0
        }
    }
}

/// The accounts of `initialize`.
#[derive(Clone, Copy, Debug)]
pub struct Initialize {
    /// The account, newly made by the host, that will store the record.
    pub presale: PresaleAccount,
    /// Who creates the presale and becomes its owner.
    pub owner: Signer,
}

/// The accounts of `buy_tokens`.
#[derive(Clone, Copy, Debug)]
pub struct BuyTokens {
    pub presale: PresaleAccount,
    /// Who pays.
    pub buyer: Signer,
    /// The account that the buyer wants to pay to.
    pub payment_wallet: AccountInfo,
}

/// The accounts of `record_purchase_intent`.
#[derive(Clone, Copy, Debug)]
pub struct RecordPurchaseIntent {
    pub presale: PresaleAccount,
    pub buyer: Signer,
}

/// The accounts of `stake_tokens`.
#[derive(Clone, Copy, Debug)]
pub struct StakeTokens {
    pub presale: PresaleAccount,
    pub buyer: Signer,
}

/// The accounts of `claim_evm`.
#[derive(Clone, Copy, Debug)]
pub struct ClaimEVM {
    pub presale: PresaleAccount,
    pub user: Signer,
}

/// The accounts of `withdraw_sol`. The presale account and the recipient are
/// two accounts. The owner may be the recipient: of `owner` only the address
/// is read, and only `recipient` receives.
#[derive(Clone, Copy, Debug)]
pub struct WithdrawSol {
    pub presale: PresaleAccount,
    /// The account that receives the funds.
    pub recipient: Signer,
    /// Who asks for the withdrawal.
    pub owner: Signer,
}

/// The accounts of `change_rate`.
#[derive(Clone, Copy, Debug)]
pub struct ChangeRate {
    pub presale: PresaleAccount,
    /// Who asks for the change.
    pub owner: Signer,
}

/// The accounts of `change_payment_wallet`.
#[derive(Clone, Copy, Debug)]
pub struct ChangePaymentWallet {
    pub presale: PresaleAccount,
    /// Who asks for the change.
    pub owner: Signer,
}

/// The accounts of `pause_presale`.
#[derive(Clone, Copy, Debug)]
pub struct PausePresale {
    pub presale: PresaleAccount,
    /// Who asks for the change.
    pub owner: Signer,
}

} // verus!
