use presale::{
    buy_tokens, change_payment_wallet, initialize, pause_presale, AccountInfo, BuyTokens,
    ChangePaymentWallet, ErrorCode, Initialize, PausePresale, Presale, PresaleAccount,
    PresaleError, Pubkey, Signer,
};

fn key(byte: u8) -> Pubkey {
    Pubkey::new_from_array([byte; 32])
}

fn signer(byte: u8) -> Signer {
    Signer { key: key(byte), lamports: 1_000 }
}

fn wallet(byte: u8) -> AccountInfo {
    AccountInfo { key: key(byte), lamports: 0 }
}

fn fresh_account() -> PresaleAccount {
    PresaleAccount {
        data: Presale { owner: key(0), rate: 0, payment_wallet: key(0), is_paused: false },
        lamports: 4_000,
        min_balance: 4_000,
    }
}

fn created(owner: u8, payment_wallet: u8, rate: u64) -> PresaleAccount {
    let mut ctx = Initialize { presale: fresh_account(), owner: signer(owner) };
    assert_eq!(initialize(&mut ctx, key(payment_wallet), rate), Ok(()));
    ctx.presale
}

#[test]
fn purchase_succeeds_until_owner_pauses() {
    let (a, b, c) = (1, 2, 3);
    let presale = created(a, b, 1000);
    let record = presale.data;

    let ctx = BuyTokens { presale, buyer: signer(c), payment_wallet: wallet(b) };
    let purchase = buy_tokens(&ctx, 5, false, String::from("0x00")).unwrap();
    assert_eq!(purchase.transfer.program_id, key(0));
    assert_eq!(purchase.transfer.accounts.len(), 2);
    assert_eq!(purchase.transfer.accounts[0].pubkey, key(c));
    assert!(purchase.transfer.accounts[0].is_signer);
    assert!(purchase.transfer.accounts[0].is_writable);
    assert_eq!(purchase.transfer.accounts[1].pubkey, key(b));
    assert!(!purchase.transfer.accounts[1].is_signer);
    assert!(purchase.transfer.accounts[1].is_writable);
    assert_eq!(purchase.transfer.data, vec![2, 0, 0, 0, 5, 0, 0, 0, 0, 0, 0, 0]);
    assert_eq!(ctx.presale.data, record);
    assert_eq!(
        ctx.presale.data,
        Presale { owner: key(a), rate: 1000, payment_wallet: key(b), is_paused: false }
    );

    let mut pause = PausePresale { presale, owner: signer(a) };
    assert_eq!(pause_presale(&mut pause, true), Ok(()));
    assert!(pause.presale.data.is_paused);

    let ctx = BuyTokens { presale: pause.presale, buyer: signer(c), payment_wallet: wallet(b) };
    let refused = buy_tokens(&ctx, 5, false, String::from("0x00")).unwrap_err();
    assert_eq!(refused, PresaleError::Custom(ErrorCode::PresaleIsPaused));
    assert_eq!(ctx.buyer.lamports, 1_000);
    assert_eq!(ctx.payment_wallet.lamports, 0);
}

#[test]
fn only_owner_moves_payment_wallet_and_purchases_follow() {
    let (a, b, c, d, e) = (1, 2, 3, 4, 5);
    let presale = created(a, b, 1000);

    let mut ctx = ChangePaymentWallet { presale, owner: signer(e) };
    assert_eq!(
        change_payment_wallet(&mut ctx, key(d)),
        Err(PresaleError::Custom(ErrorCode::Unauthorized))
    );
    assert_eq!(ctx.presale.data, presale.data);
    assert_eq!(ctx.presale.data.payment_wallet, key(b));

    let mut ctx = ChangePaymentWallet { presale, owner: signer(a) };
    assert_eq!(change_payment_wallet(&mut ctx, key(d)), Ok(()));
    assert_eq!(ctx.presale.data.payment_wallet, key(d));
    assert_eq!(ctx.presale.data.owner, key(a));
    let presale = ctx.presale;

    let stale = BuyTokens { presale, buyer: signer(c), payment_wallet: wallet(b) };
    assert_eq!(
        buy_tokens(&stale, 5, false, String::new()).unwrap_err(),
        PresaleError::Custom(ErrorCode::InvalidPaymentWallet)
    );

    let current = BuyTokens { presale, buyer: signer(c), payment_wallet: wallet(d) };
    let purchase = buy_tokens(&current, 5, false, String::new()).unwrap();
    assert_eq!(purchase.transfer.accounts[1].pubkey, key(d));
}
