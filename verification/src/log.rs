//! What the presale writes to the transaction log.
//!
//! Purchases, stakes and address claims are not stored. Each leaves an entry
//! in the log of the transaction, and whoever credits the tokens reads it
//! there. An entry is written as a few lines of text, each starting with the
//! name of the operation.

use vstd::prelude::*;
use crate::pubkey::{base58_text, Pubkey};

verus! {

/// One entry of the log.
#[derive(Debug)]
pub enum LogEntry {
    /// `buyer` means to buy.
    PurchaseIntent { buyer: Pubkey },
    /// `buyer` wants to stake `amount`.
    Stake { buyer: Pubkey, amount: u64 },
    /// `user` wants its tokens credited to `evm_address`. The address is
    /// kept as it was handed in: nothing is checked of it.
    ClaimEvm { user: Pubkey, evm_address: String },
    /// `buyer` has paid `sol_amount` while the presale's rate was `rate`.
    /// `stake` and `evm_address` are the buyer's wishes, kept as handed in.
    Buy { buyer: Pubkey, sol_amount: u64, rate: u64, stake: bool, evm_address: String },
}

/// An entry of the log as a mathematical value.
pub enum LogRecord {
    PurchaseIntent { buyer: Pubkey },
    Stake { buyer: Pubkey, amount: u64 },
    ClaimEvm { user: Pubkey, evm_address: Seq<char> },
    Buy { buyer: Pubkey, sol_amount: u64, rate: u64, stake: bool, evm_address: Seq<char> },
}

impl View for LogEntry {
    type V = LogRecord;

    open spec fn view(&self) -> LogRecord {
        match *self {
            LogEntry::PurchaseIntent { buyer } => LogRecord::PurchaseIntent { buyer },
            LogEntry::Stake { buyer, amount } => LogRecord::Stake { buyer, amount },
            LogEntry::ClaimEvm { user, evm_address } => LogRecord::ClaimEvm {
                user,
                evm_address: evm_address@,
            },
            LogEntry::Buy { buyer, sol_amount, rate, stake, evm_address } => LogRecord::Buy {
                buyer,
                sol_amount,
                rate,
                stake,
                evm_address: evm_address@,
            },
        }
    }
}

/// The digit for `d`, which is below ten.
pub open spec fn digit(d: nat) -> char {
    "0123456789"@[d as int]
}

/// `n` written in decimal, without leading zeros.
pub open spec fn decimal(n: nat) -> Seq<char>
    decreases n,
{
    if n < 10 {
        seq![digit(n)]
    } else {
        decimal(n / 10) + seq![digit(n % 10)]
    }
}

/// `true` or `false`.
pub open spec fn truth(b: bool) -> Seq<char> {
    if b {
        "true"@
    } else {
        "false"@
    }
}

impl LogRecord {
    /// The account that the entry is about.
    pub open spec fn principal(self) -> Pubkey {
        match self {
            LogRecord::PurchaseIntent { buyer } => buyer,
            LogRecord::Stake { buyer, .. } => buyer,
            LogRecord::ClaimEvm { user, .. } => user,
            LogRecord::Buy { buyer, .. } => buyer,
        }
    }

    /// The lines of the entry, where `principal` is the text for the
    /// address of the account that the entry is about.
    pub open spec fn lines(self, principal: Seq<char>) -> Seq<Seq<char>> {
        match self {
            LogRecord::PurchaseIntent { .. } => seq!["PurchaseLog: Buyer: "@ + principal],
            LogRecord::Stake { amount, .. } => seq![
                "StakeLog: Buyer: "@ + principal,
                "StakeLog: Amount: "@ + decimal(amount as nat),
            ],
            LogRecord::ClaimEvm { evm_address, .. } => seq![
                "ClaimEVMLog: User: "@ + principal,
                "ClaimEVMLog: EVM Address: "@ + evm_address,
            ],
            LogRecord::Buy { sol_amount, rate, stake, evm_address, .. } => seq![
                "BuyerLog: Buyer: "@ + principal,
                "BuyerLog: SOL amount: "@ + decimal(sol_amount as nat),
                "BuyerLog: Price: ~ "@ + decimal(rate as nat),
                "BuyerLog: Stake: ~ "@ + truth(stake),
                "BuyerLog: EVM Address: "@ + evm_address,
            ],
        }
    }
}

/// Appends `n` in decimal to `text`.
fn push_decimal(text: &mut String, n: u64)
    ensures
        final(text)@ == old(text)@ + decimal(n as nat),
    decreases n,
{
    if n >= 10 {
        push_decimal(text, n / 10);
    }
    let d: usize = (n % 10) as usize;
    proof {
        reveal_strlit("0123456789");
    }
    let digits = "0123456789";
    text.append(digits.substring_ascii(d, d + 1));
}

/// `n` written in decimal.
pub fn decimal_string(n: u64) -> (text: String)
    ensures
        text@ == decimal(n as nat),
{
    let mut text = String::new();
    push_decimal(&mut text, n);
    text
}

/// The line that says `value` under `label`.
fn line(label: &str, value: &str) -> (text: String)
    ensures
        text@ == label@ + value@,
{
    let mut text = String::from_str(label);
    text.append(value);
    text
}

impl LogEntry {
    /// The account that the entry is about.
    pub fn principal(&self) -> (key: Pubkey)
        ensures
            key == self@.principal(),
    {
        match self {
            LogEntry::PurchaseIntent { buyer } => *buyer,
            LogEntry::Stake { buyer, .. } => *buyer,
            LogEntry::ClaimEvm { user, .. } => *user,
            LogEntry::Buy { buyer, .. } => *buyer,
        }
    }

    /// The lines of the entry, given the text for the address of the account
    /// that the entry is about.
    pub fn lines_with(&self, principal: &str) -> (lines: Vec<String>)
        ensures
            lines.deep_view() == self@.lines(principal@),
    {
        let mut lines: Vec<String> = Vec::new();
        match self {
            LogEntry::PurchaseIntent { .. } => {
                lines.push(line("PurchaseLog: Buyer: ", principal));
            },
            LogEntry::Stake { amount, .. } => {
                lines.push(line("StakeLog: Buyer: ", principal));
                lines.push(line("StakeLog: Amount: ", decimal_string(*amount).as_str()));
            },
            LogEntry::ClaimEvm { evm_address, .. } => {
                lines.push(line("ClaimEVMLog: User: ", principal));
                lines.push(line("ClaimEVMLog: EVM Address: ", evm_address.as_str()));
            },
            LogEntry::Buy { sol_amount, rate, stake, evm_address, .. } => {
                let wish = if *stake {
                    "true"
                } else {
                    "false"
                };
                lines.push(line("BuyerLog: Buyer: ", principal));
                lines.push(line("BuyerLog: SOL amount: ", decimal_string(*sol_amount).as_str()));
                lines.push(line("BuyerLog: Price: ~ ", decimal_string(*rate).as_str()));
                lines.push(line("BuyerLog: Stake: ~ ", wish));
                lines.push(line("BuyerLog: EVM Address: ", evm_address.as_str()));
            },
        }
        lines
    }

    /// The lines of the entry as they go into the log, with the account's
    /// address in base 58.
    pub fn lines(&self) -> (lines: Vec<String>)
        ensures
            lines.deep_view() == self@.lines(base58_text(self@.principal()@)),
    {
        let principal = self.principal().to_base58();
        self.lines_with(principal.as_str())
    }
}

} // verus!
