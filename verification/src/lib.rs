//! The custody and authorisation rules of a token presale on Solana.

pub mod accounts;
pub mod error;
pub mod instruction;
pub mod log;
pub mod presale_program;
pub mod pubkey;
pub mod state;

pub use accounts::{
    AccountInfo, BuyTokens, ChangePaymentWallet, ChangeRate, ClaimEVM, Initialize, PausePresale,
    PresaleAccount, RecordPurchaseIntent, Signer, StakeTokens, WithdrawSol,
};
pub use error::{ErrorCode, PresaleError};
pub use instruction::{AccountMeta, Instruction};
pub use log::LogEntry;
pub use presale_program::{
    buy_tokens, change_payment_wallet, change_rate, claim_evm, initialize, pause_presale,
    record_purchase_intent, stake_tokens, withdraw_sol, Purchase,
};
pub use pubkey::Pubkey;
pub use state::Presale;
