//! Instructions for other programs.
//!
//! The presale moves a buyer's payment by asking the system program to do
//! it. It builds the instruction; the host carries it out.

use vstd::prelude::*;
use crate::pubkey::Pubkey;

verus! {

/// One account that an instruction names, and what the instruction needs of it.
#[derive(Clone, Copy, Debug)]
pub struct AccountMeta {
    pub pubkey: Pubkey,
    /// The account's holder must have signed the transaction.
    pub is_signer: bool,
    /// The instruction may change the account.
    pub is_writable: bool,
}

impl AccountMeta {
    /// The entry for the account with the given address.
    pub fn new(bytes: [u8; 32], is_signer: bool, is_writable: bool) -> (meta: AccountMeta)
        ensures
            meta == (AccountMeta { pubkey: Pubkey { bytes }, is_signer, is_writable }),
    {
        AccountMeta { pubkey: Pubkey { bytes }, is_signer, is_writable }
    }
}

/// An instruction: the program that is to run, the accounts it is given, and
/// the bytes it reads its orders from.
#[derive(Debug)]
pub struct Instruction {
    pub program_id: Pubkey,
    pub accounts: Vec<AccountMeta>,
    pub data: Vec<u8>,
}

/// The eight bytes of `x`, lowest first.
pub open spec fn u64_le_bytes(x: u64) -> Seq<u8> {
    seq![
        (x % 0x100) as u8,
        (x / 0x100 % 0x100) as u8,
        (x / 0x1_0000 % 0x100) as u8,
        (x / 0x100_0000 % 0x100) as u8,
        (x / 0x1_0000_0000 % 0x100) as u8,
        (x / 0x100_0000_0000 % 0x100) as u8,
        (x / 0x1_0000_0000_0000 % 0x100) as u8,
        (x / 0x100_0000_0000_0000 % 0x100) as u8,
    ]
}

impl Instruction {
    /// The instruction asks the system program to move `lamports` from the
    /// account `from`, which must have signed, to the account `to`.
    ///
    /// The system program has the address of thirty-two zero bytes. An
    /// order to it starts with its number as four bytes, lowest first, a
    /// transfer being number 2, and goes on with the amount as eight bytes,
    /// lowest first.
    pub open spec fn is_system_transfer(&self, from: Pubkey, to: Pubkey, lamports: u64) -> bool {
        &&& self.program_id@ =~= Seq::new(32, |i: int| 0u8)
        &&& self.accounts@ =~= seq![
            AccountMeta { pubkey: from, is_signer: true, is_writable: true },
            AccountMeta { pubkey: to, is_signer: false, is_writable: true },
        ]
        &&& self.data@ =~= seq![2u8, 0u8, 0u8, 0u8] + u64_le_bytes(lamports)
    }
}

/// Builds the instruction with `system_instruction::transfer` of the Solana
/// program library and copies its three fields over.
///
/// Not proved, and taken from that library's source: that it names the
/// system program, whose address is all zeros; that it lists `from` as a
/// writable signer and then `to` as writable and no signer; and that it
/// encodes the order with `bincode`, which writes the number of the
/// `Transfer` variant, 2, in four bytes and the amount in eight, each with
/// the lowest byte first.
#[verifier::external_body]
pub(crate) fn system_transfer(from: &Pubkey, to: &Pubkey, lamports: u64) -> (ix: Instruction)
    ensures
        ix.is_system_transfer(*from, *to, lamports),
{
    let from = anchor_lang::prelude::Pubkey::new_from_array(from.bytes);
    let to = anchor_lang::prelude::Pubkey::new_from_array(to.bytes);
    let built = anchor_lang::solana_program::system_instruction::transfer(&from, &to, lamports);
    let accounts = built.accounts.iter().map(
        |meta| AccountMeta::new(meta.pubkey.to_bytes(), meta.is_signer, meta.is_writable),
    ).collect();
    Instruction { program_id: Pubkey { bytes: built.program_id.to_bytes() }, accounts, data: built.data }
}

} // verus!
