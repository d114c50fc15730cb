//! The operations of the presale.
//!
//! An operation either passes all its checks and does all of what it is
//! for, or it is refused and has changed nothing. The operations that
//! administer the presale are the owner's alone. Where an operation has
//! something done by the host, a payment moved or a line logged, it returns
//! what is to be done.

use vstd::prelude::*;
use crate::accounts::{
    BuyTokens, ChangePaymentWallet, ChangeRate, ClaimEVM, Initialize, PausePresale,
    PresaleAccount, RecordPurchaseIntent, Signer, StakeTokens, WithdrawSol,
};
use crate::error::{ErrorCode, PresaleError};
use crate::instruction::{system_transfer, Instruction};
use crate::log::{LogEntry, LogRecord};
use crate::pubkey::Pubkey;
use crate::state::Presale;

verus! {

/// The accounts after `initialize`: the presale account stores a record
/// that is owned by the creator, has the given rate and payment wallet, and
/// is not paused. Balances stay as they are.
pub open spec fn initialize_state(ctx: Initialize, payment_wallet: Pubkey, rate: u64)
    -> Initialize {
    Initialize {
        presale: PresaleAccount {
            data: Presale { owner: ctx.owner.key, rate, payment_wallet, is_paused: false },
            ..ctx.presale
        },
        ..ctx
    }
}

/// Creates the presale in the account that the host has made for it.
///
/// It always succeeds. That an account holds one record and is set up once
/// is the host's to see to: it makes the account, and refuses to make one
/// that exists.
pub fn initialize(ctx: &mut Initialize, payment_wallet: Pubkey, rate: u64) -> (r: Result<
    (),
    PresaleError,
>)
    ensures
        r is Ok,
        *final(ctx) == initialize_state(*old(ctx), payment_wallet, rate),
        final(ctx).presale.data.owner == old(ctx).owner.key,
        final(ctx).presale.data.rate == rate,
        final(ctx).presale.data.payment_wallet == payment_wallet,
        !final(ctx).presale.data.is_paused,
{
    ctx.presale.data.owner = ctx.owner.key;
    ctx.presale.data.rate = rate;
    ctx.presale.data.payment_wallet = payment_wallet;
    ctx.presale.data.is_paused = false;
    Ok(())
}

/// Records that the buyer means to buy. It always succeeds, reads nothing
/// of the presale and changes nothing: it returns the entry that the host is
/// to log.
pub fn record_purchase_intent(ctx: &RecordPurchaseIntent) -> (r: Result<LogEntry, PresaleError>)
    ensures
        r matches Ok(entry) && entry@ == (LogRecord::PurchaseIntent { buyer: ctx.buyer.key }),
{
    Ok(LogEntry::PurchaseIntent { buyer: ctx.buyer.key })
}

/// Records that the buyer wants to stake `amount`. It always succeeds,
/// reads nothing of the presale and changes nothing: it returns the entry
/// that the host is to log.
pub fn stake_tokens(ctx: &StakeTokens, amount: u64) -> (r: Result<LogEntry, PresaleError>)
    ensures
        r matches Ok(entry) && entry@ == (LogRecord::Stake { buyer: ctx.buyer.key, amount }),
{
    Ok(LogEntry::Stake { buyer: ctx.buyer.key, amount })
}

/// Records the address on another chain to which the user wants its tokens
/// credited. It always succeeds, whatever the address holds and however
/// often the user claims: it returns the entry that the host is to log.
pub fn claim_evm(ctx: &ClaimEVM, evm_address: String) -> (r: Result<LogEntry, PresaleError>)
    ensures
        r matches Ok(entry) && entry@ == (LogRecord::ClaimEvm {
            user: ctx.user.key,
            evm_address: evm_address@,
        }),
{
    Ok(LogEntry::ClaimEvm { user: ctx.user.key, evm_address })
}

/// What a purchase asks of the host, in this order: to carry out `transfer`,
/// and, once the payment has moved, to write `log`. If the host cannot move
/// the payment the purchase has failed, and nothing is written.
#[derive(Debug)]
pub struct Purchase {
    pub transfer: Instruction,
    pub log: LogEntry,
}

/// Why a purchase with these accounts is refused, if it is. There are three
/// checks, and the first that fails decides: the presale is not paused; the
/// payment goes to the wallet that the presale is set to; the buyer does not
/// pay itself.
pub open spec fn purchase_refusal(ctx: BuyTokens) -> Option<PresaleError> {
    if ctx.presale.data.is_paused {
        Some(PresaleError::Custom(ErrorCode::PresaleIsPaused))
    } else if ctx.payment_wallet.key != ctx.presale.data.payment_wallet {
        Some(PresaleError::Custom(ErrorCode::InvalidPaymentWallet))
    } else if ctx.buyer.key == ctx.payment_wallet.key {
        Some(PresaleError::InvalidArgument)
    } else {
        None
    }
}

/// Buys tokens: the buyer pays `sol_amount` lamports to the presale's
/// payment wallet.
///
/// The purchase is refused as `purchase_refusal` says, whatever the amount.
/// Otherwise it returns the instruction that moves exactly `sol_amount` from
/// the buyer to the payment wallet, and the log entry for the purchase, which
/// reports the rate of the moment. `stake` and `evm_address` go into the
/// entry as they are. No account is changed here: the payment moves when the
/// host carries out the instruction.
pub fn buy_tokens(ctx: &BuyTokens, sol_amount: u64, stake: bool, evm_address: String) -> (r:
    Result<Purchase, PresaleError>)
    ensures
        match r {
            Ok(purchase) => {
                &&& purchase_refusal(*ctx) is None
                &&& purchase.transfer.is_system_transfer(
                    ctx.buyer.key,
                    ctx.payment_wallet.key,
                    sol_amount,
                )
                &&& purchase.log@ == (LogRecord::Buy {
                    buyer: ctx.buyer.key,
                    sol_amount,
                    rate: ctx.presale.data.rate,
                    stake,
                    evm_address: evm_address@,
                })
            },
            Err(e) => purchase_refusal(*ctx) == Some(e),
        },
        ctx.presale.data.is_paused ==> (r matches Err(e) && e == PresaleError::Custom(
            ErrorCode::PresaleIsPaused,
        )),
        ctx.payment_wallet.key != ctx.presale.data.payment_wallet ==> r is Err,
        !ctx.presale.data.is_paused && ctx.payment_wallet.key != ctx.presale.data.payment_wallet
            ==> (r matches Err(e) && e == PresaleError::Custom(ErrorCode::InvalidPaymentWallet)),
        ctx.buyer.key == ctx.payment_wallet.key ==> r is Err,
{
    if ctx.presale.data.is_paused {
        return Err(PresaleError::Custom(ErrorCode::PresaleIsPaused));
    }
    if ctx.payment_wallet.key != ctx.presale.data.payment_wallet {
        return Err(PresaleError::Custom(ErrorCode::InvalidPaymentWallet));
    }
    if ctx.buyer.key == ctx.payment_wallet.key {
        return Err(PresaleError::InvalidArgument);
    }
    let transfer = system_transfer(&ctx.buyer.key, &ctx.payment_wallet.key, sol_amount);
    let log = LogEntry::Buy {
        buyer: ctx.buyer.key,
        sol_amount,
        rate: ctx.presale.data.rate,
        stake,
        evm_address,
    };
    Ok(Purchase { transfer, log })
}

/// Whether `caller` may administer the presale: only its owner may.
pub open spec fn owner_check(record: Presale, caller: Pubkey) -> Result<(), PresaleError> {
    if caller == record.owner {
        Ok(())
    } else {
        Err(PresaleError::Custom(ErrorCode::Unauthorized))
    }
}

/// Lets only the owner pass.
fn require_owner(record: &Presale, caller: &Pubkey) -> (r: Result<(), PresaleError>)
    ensures
        r == owner_check(*record, *caller),
{
    if *caller != record.owner {
        return Err(PresaleError::Custom(ErrorCode::Unauthorized));
    }
    Ok(())
}

/// How a withdrawal of `amount` ends. The owner may take all that the
/// presale account holds beyond what it must keep, and no more; and the
/// recipient must be able to hold what it gets.
pub open spec fn withdraw_sol_result(ctx: WithdrawSol, amount: u64) -> Result<(), PresaleError> {
    if owner_check(ctx.presale.data, ctx.owner.key) is Err {
        Err(PresaleError::Custom(ErrorCode::Unauthorized))
    } else if amount > ctx.presale.available() {
        Err(PresaleError::Custom(ErrorCode::Underflow))
    } else if ctx.recipient.lamports + amount > u64::MAX {
        Err(PresaleError::Custom(ErrorCode::Overflow))
    } else {
        Ok(())
    }
}

/// The accounts after a withdrawal of `amount`: where it succeeds, the
/// amount has left the presale account and reached the recipient; where it
/// is refused, nothing has changed.
pub open spec fn withdraw_sol_state(ctx: WithdrawSol, amount: u64) -> WithdrawSol {
    if withdraw_sol_result(ctx, amount) is Ok {
        WithdrawSol {
            presale: PresaleAccount {
                lamports: (ctx.presale.lamports - amount) as u64,
                ..ctx.presale
            },
            recipient: Signer {
                lamports: (ctx.recipient.lamports + amount) as u64,
                ..ctx.recipient
            },
            ..ctx
        }
    } else {
        ctx
    }
}

/// Withdraws `amount` lamports from the presale account to the recipient.
///
/// Only the owner may. The amount is not held against what purchases have
/// brought in: the owner is trusted with all that the account holds beyond
/// what it must keep for its storage.
pub fn withdraw_sol(ctx: &mut WithdrawSol, amount: u64) -> (r: Result<(), PresaleError>)
    ensures
        r == withdraw_sol_result(*old(ctx), amount),
        *final(ctx) == withdraw_sol_state(*old(ctx), amount),
        r is Err ==> *final(ctx) == *old(ctx),
        old(ctx).owner.key != old(ctx).presale.data.owner ==> r == Err::<(), PresaleError>(
            PresaleError::Custom(ErrorCode::Unauthorized),
        ),
        old(ctx).owner.key == old(ctx).presale.data.owner && amount > old(ctx).presale.available()
            ==> r == Err::<(), PresaleError>(PresaleError::Custom(ErrorCode::Underflow)),
        old(ctx).owner.key == old(ctx).presale.data.owner && amount <= old(ctx).presale.available()
            && old(ctx).recipient.lamports + amount <= u64::MAX ==> r is Ok,
        r is Ok ==> {
            &&& final(ctx).presale.lamports == old(ctx).presale.lamports - amount
            &&& final(ctx).recipient.lamports == old(ctx).recipient.lamports + amount
            &&& amount > 0 ==> final(ctx).presale.lamports >= old(ctx).presale.min_balance
        },
        final(ctx).presale.data == old(ctx).presale.data,
{
    match require_owner(&ctx.presale.data, &ctx.owner.key) {
        Err(e) => {
            return Err(e);
        },
        Ok(()) => {},
    }
    if amount > ctx.presale.available() {
        return Err(PresaleError::Custom(ErrorCode::Underflow));
    }
    match ctx.recipient.lamports.checked_add(amount) {
        None => Err(PresaleError::Custom(ErrorCode::Overflow)),
        Some(credited) => {
            ctx.presale.lamports = ctx.presale.lamports - amount;
            ctx.recipient.lamports = credited;
            Ok(())
        },
    }
}

/// The accounts after `change_rate`: the owner's call sets the rate, any
/// other call changes nothing.
pub open spec fn change_rate_state(ctx: ChangeRate, new_rate: u64) -> ChangeRate {
    if owner_check(ctx.presale.data, ctx.owner.key) is Ok {
        ChangeRate {
            presale: PresaleAccount {
                data: Presale { rate: new_rate, ..ctx.presale.data },
                ..ctx.presale
            },
            ..ctx
        }
    } else {
        ctx
    }
}

/// Sets the rate. Only the owner may. Every rate is accepted, zero and the
/// largest too.
pub fn change_rate(ctx: &mut ChangeRate, new_rate: u64) -> (r: Result<(), PresaleError>)
    ensures
        r == owner_check(old(ctx).presale.data, old(ctx).owner.key),
        *final(ctx) == change_rate_state(*old(ctx), new_rate),
        old(ctx).owner.key != old(ctx).presale.data.owner ==> r == Err::<(), PresaleError>(
            PresaleError::Custom(ErrorCode::Unauthorized),
        ) && *final(ctx) == *old(ctx),
        old(ctx).owner.key == old(ctx).presale.data.owner ==> r is Ok
            && final(ctx).presale.data.rate == new_rate,
        final(ctx).presale.data.owner == old(ctx).presale.data.owner,
{
    match require_owner(&ctx.presale.data, &ctx.owner.key) {
        Err(e) => {
            return Err(e);
        },
        Ok(()) => {},
    }
    ctx.presale.data.rate = new_rate;
    Ok(())
}

/// The accounts after `change_payment_wallet`: the owner's call sets the
/// wallet, any other call changes nothing.
pub open spec fn change_payment_wallet_state(ctx: ChangePaymentWallet, new_wallet: Pubkey)
    -> ChangePaymentWallet {
    if owner_check(ctx.presale.data, ctx.owner.key) is Ok {
        ChangePaymentWallet {
            presale: PresaleAccount {
                data: Presale { payment_wallet: new_wallet, ..ctx.presale.data },
                ..ctx.presale
            },
            ..ctx
        }
    } else {
        ctx
    }
}

/// Sets the wallet that purchases pay to. Only the owner may. Every
/// purchase from then on must name the new wallet.
pub fn change_payment_wallet(ctx: &mut ChangePaymentWallet, new_wallet: Pubkey) -> (r: Result<
    (),
    PresaleError,
>)
    ensures
        r == owner_check(old(ctx).presale.data, old(ctx).owner.key),
        *final(ctx) == change_payment_wallet_state(*old(ctx), new_wallet),
        old(ctx).owner.key != old(ctx).presale.data.owner ==> r == Err::<(), PresaleError>(
            PresaleError::Custom(ErrorCode::Unauthorized),
        ) && *final(ctx) == *old(ctx),
        old(ctx).owner.key == old(ctx).presale.data.owner ==> r is Ok
            && final(ctx).presale.data.payment_wallet == new_wallet,
        final(ctx).presale.data.owner == old(ctx).presale.data.owner,
{
    match require_owner(&ctx.presale.data, &ctx.owner.key) {
        Err(e) => {
            return Err(e);
        },
        Ok(()) => {},
    }
    ctx.presale.data.payment_wallet = new_wallet;
    Ok(())
}

/// The accounts after `pause_presale`: the owner's call sets the flag, any
/// other call changes nothing.
pub open spec fn pause_presale_state(ctx: PausePresale, pause: bool) -> PausePresale {
    if owner_check(ctx.presale.data, ctx.owner.key) is Ok {
        PausePresale {
            presale: PresaleAccount {
                data: Presale { is_paused: pause, ..ctx.presale.data },
                ..ctx.presale
            },
            ..ctx
        }
    } else {
        ctx
    }
}

/// Pauses the presale or lets it go on. Only the owner may. To set the
/// flag to what it is already succeeds too.
pub fn pause_presale(ctx: &mut PausePresale, pause: bool) -> (r: Result<(), PresaleError>)
    ensures
        r == owner_check(old(ctx).presale.data, old(ctx).owner.key),
        *final(ctx) == pause_presale_state(*old(ctx), pause),
        old(ctx).owner.key != old(ctx).presale.data.owner ==> r == Err::<(), PresaleError>(
            PresaleError::Custom(ErrorCode::Unauthorized),
        ) && *final(ctx) == *old(ctx),
        old(ctx).owner.key == old(ctx).presale.data.owner ==> r is Ok
            && final(ctx).presale.data.is_paused == pause,
        final(ctx).presale.data.owner == old(ctx).presale.data.owner,
{
    match require_owner(&ctx.presale.data, &ctx.owner.key) {
        Err(e) => {
            return Err(e);
        },
        Ok(()) => {},
    }
    ctx.presale.data.is_paused = pause;
    Ok(())
}

/// Where the owner pauses the presale and then lets it go on, the presale is
/// running afterwards, whatever it was before.
pub proof fn lemma_pause_then_resume(ctx: PausePresale)
    requires
        ctx.owner.key == ctx.presale.data.owner,
    ensures
        pause_presale_state(ctx, true).presale.data.is_paused,
        !pause_presale_state(pause_presale_state(ctx, true), false).presale.data.is_paused,
{
}

/// To ask twice for the same state is to ask once: the second call ends as
/// the first did and leaves the accounts as the first left them.
pub proof fn lemma_pause_twice(ctx: PausePresale, pause: bool)
    ensures
        pause_presale_state(pause_presale_state(ctx, pause), pause) == pause_presale_state(
            ctx,
            pause,
        ),
        owner_check(
            pause_presale_state(ctx, pause).presale.data,
            pause_presale_state(ctx, pause).owner.key,
        ) == owner_check(ctx.presale.data, ctx.owner.key),
{
}

/// While the presale is paused no purchase passes, whoever buys and
/// whatever is paid; once the owner has let it go on, the pause no longer
/// stands in the way.
pub proof fn lemma_pause_stops_purchases(ctx: PausePresale, buy: BuyTokens)
    requires
        ctx.owner.key == ctx.presale.data.owner,
    ensures
        buy.presale == pause_presale_state(ctx, true).presale ==> purchase_refusal(buy) == Some(
            PresaleError::Custom(ErrorCode::PresaleIsPaused),
        ),
        buy.presale == pause_presale_state(ctx, false).presale ==> purchase_refusal(buy) != Some(
            PresaleError::Custom(ErrorCode::PresaleIsPaused),
        ),
{
}

/// Once the owner has set a payment wallet, a purchase must pay to that
/// wallet: on a running presale one that names another wallet is refused for
/// it, and one that names the new wallet passes unless the buyer is that
/// wallet.
pub proof fn lemma_purchases_follow_the_wallet(
    ctx: ChangePaymentWallet,
    new_wallet: Pubkey,
    buy: BuyTokens,
)
    requires
        ctx.owner.key == ctx.presale.data.owner,
        buy.presale == change_payment_wallet_state(ctx, new_wallet).presale,
        !buy.presale.data.is_paused,
    ensures
        buy.payment_wallet.key != new_wallet ==> purchase_refusal(buy) == Some(
            PresaleError::Custom(ErrorCode::InvalidPaymentWallet),
        ),
        buy.payment_wallet.key == new_wallet && buy.buyer.key != new_wallet ==> purchase_refusal(
            buy,
        ) is None,
{
}

/// The owner's operations do not look at the pause flag: each ends the same
/// way on a paused presale as on a running one.
pub proof fn lemma_administration_ignores_pause(ctx: WithdrawSol, amount: u64, paused: bool)
    ensures
        owner_check(Presale { is_paused: paused, ..ctx.presale.data }, ctx.owner.key)
            == owner_check(ctx.presale.data, ctx.owner.key),
        withdraw_sol_result(
            WithdrawSol {
                presale: PresaleAccount {
                    data: Presale { is_paused: paused, ..ctx.presale.data },
                    ..ctx.presale
                },
                ..ctx
            },
            amount,
        ) == withdraw_sol_result(ctx, amount),
{
}

} // verus!
