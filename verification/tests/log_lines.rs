use presale::log::decimal_string;
use presale::{LogEntry, Pubkey};

fn key(byte: u8) -> Pubkey {
    Pubkey::new_from_array([byte; 32])
}

#[test]
fn decimal_of_small_and_large_numbers() {
    assert_eq!(decimal_string(0), "0");
    assert_eq!(decimal_string(7), "7");
    assert_eq!(decimal_string(9), "9");
    assert_eq!(decimal_string(10), "10");
    assert_eq!(decimal_string(11), "11");
    assert_eq!(decimal_string(100), "100");
    assert_eq!(decimal_string(1_000_000_007), "1000000007");
    assert_eq!(decimal_string(9_876_543_210), "9876543210");
    assert_eq!(decimal_string(u64::MAX), "18446744073709551615");
}

#[test]
fn decimal_agrees_with_the_standard_library() {
    let mut n: u64 = 1;
    for _ in 0..64 {
        assert_eq!(decimal_string(n), n.to_string());
        assert_eq!(decimal_string(n - 1), (n - 1).to_string());
        n = n.wrapping_mul(3).wrapping_add(1);
    }
}

#[test]
fn address_of_the_system_program_in_base_58() {
    assert_eq!(key(0).to_base58(), "11111111111111111111111111111111");
}

#[test]
fn address_in_base_58_is_what_solana_prints() {
    for byte in [0u8, 1, 2, 127, 255] {
        let mut bytes = [byte; 32];
        bytes[0] = 3;
        bytes[31] = 200;
        let theirs = anchor_lang::prelude::Pubkey::new_from_array(bytes);
        assert_eq!(Pubkey::new_from_array(bytes).to_base58(), theirs.to_string());
    }
    let known = "AquaFurRSVeVin1wJPmf7bvP6fCEKBqQbdpq6fr3aPy5";
    let theirs: anchor_lang::prelude::Pubkey = known.parse().unwrap();
    assert_eq!(Pubkey::new_from_array(theirs.to_bytes()).to_base58(), known);
}

#[test]
fn lines_of_a_purchase_intent() {
    let entry = LogEntry::PurchaseIntent { buyer: key(0) };
    assert_eq!(entry.lines(), vec!["PurchaseLog: Buyer: 11111111111111111111111111111111"]);
    assert_eq!(entry.lines_with("someone"), vec!["PurchaseLog: Buyer: someone"]);
}

#[test]
fn lines_of_a_stake() {
    let entry = LogEntry::Stake { buyer: key(0), amount: 1_500 };
    assert_eq!(
        entry.lines(),
        vec!["StakeLog: Buyer: 11111111111111111111111111111111", "StakeLog: Amount: 1500"]
    );
    assert_eq!(
        entry.lines_with("someone"),
        vec!["StakeLog: Buyer: someone", "StakeLog: Amount: 1500"]
    );
}

#[test]
fn lines_of_a_claim() {
    let entry = LogEntry::ClaimEvm { user: key(0), evm_address: String::from("0xdeadbeef") };
    assert_eq!(
        entry.lines(),
        vec![
            "ClaimEVMLog: User: 11111111111111111111111111111111",
            "ClaimEVMLog: EVM Address: 0xdeadbeef",
        ]
    );
    let entry = LogEntry::ClaimEvm { user: key(0), evm_address: String::new() };
    assert_eq!(entry.lines_with("u"), vec!["ClaimEVMLog: User: u", "ClaimEVMLog: EVM Address: "]);
}

#[test]
fn lines_of_a_purchase() {
    let entry = LogEntry::Buy {
        buyer: key(0),
        sol_amount: 5,
        rate: 1000,
        stake: true,
        evm_address: String::from("0xabc"),
    };
    assert_eq!(
        entry.lines(),
        vec![
            "BuyerLog: Buyer: 11111111111111111111111111111111",
            "BuyerLog: SOL amount: 5",
            "BuyerLog: Price: ~ 1000",
            "BuyerLog: Stake: ~ true",
            "BuyerLog: EVM Address: 0xabc",
        ]
    );
    let entry = LogEntry::Buy {
        buyer: key(0),
        sol_amount: u64::MAX,
        rate: 0,
        stake: false,
        evm_address: String::new(),
    };
    assert_eq!(
        entry.lines_with("B"),
        vec![
            "BuyerLog: Buyer: B",
            "BuyerLog: SOL amount: 18446744073709551615",
            "BuyerLog: Price: ~ 0",
            "BuyerLog: Stake: ~ false",
            "BuyerLog: EVM Address: ",
        ]
    );
}

#[test]
fn lines_name_the_account_of_the_entry() {
    let mut bytes = [9u8; 32];
    bytes[5] = 1;
    let buyer = Pubkey::new_from_array(bytes);
    let text = anchor_lang::prelude::Pubkey::new_from_array(bytes).to_string();
    let entry = LogEntry::Stake { buyer, amount: 3 };
    assert_eq!(entry.principal(), buyer);
    assert_eq!(entry.lines()[0], format!("StakeLog: Buyer: {}", text));
    assert_ne!(text, "11111111111111111111111111111111");
}
