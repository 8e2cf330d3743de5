use rozo_intents::payment::{Error as PaymentError, Payment};
use rozo_intents::types::{Address, Party, Transfer};

fn gen_addr(b: u8) -> Address {
    Address { key: [b; 32], is_account: true }
}

/// (token, holder, amount) rows of a toy ledger.
type Ledger = Vec<(Address, Party, i128)>;

fn payment_balance_of(led: &Ledger, token: &Address, who: &Party) -> i128 {
    for (t, w, a) in led.iter() {
        if t == token && w == who {
            return *a;
        }
    }
    0
}

fn payment_credit(led: &mut Ledger, token: &Address, who: &Party, amount: i128) {
    for row in led.iter_mut() {
        if &row.0 == token && &row.1 == who {
            row.2 += amount;
            return;
        }
    }
    led.push((*token, *who, amount));
}

fn payment_apply(led: &mut Ledger, t: &Transfer) {
    payment_credit(led, &t.token, &t.from, -t.amount);
    payment_credit(led, &t.token, &t.to, t.amount);
}

#[test]
fn test_init() {
    let mut p = Payment::new();
    let destination = gen_addr(1);

    p.init(destination).unwrap();

    // Verify destination is set correctly
    assert_eq!(p.get_destination(), destination);
}

#[test]
fn test_init_twice_fails() {
    let mut p = Payment::new();
    let destination = gen_addr(1);

    p.init(destination).unwrap();

    // Try to initialize again - should return error
    let result = p.init(destination);
    assert!(result.is_err());
}

#[test]
fn test_pay() {
    let mut p = Payment::new();
    let destination = gen_addr(1);
    let payer = gen_addr(2);
    p.init(destination).unwrap();

    let usdc = p.get_usdc();
    let mut ledger: Ledger = Vec::new();

    // Mint USDC to the payer
    payment_credit(&mut ledger, &usdc, &Party::Addr(payer), 10000);

    // Check initial balances
    assert_eq!(payment_balance_of(&ledger, &usdc, &Party::Addr(payer)), 10000);
    assert_eq!(payment_balance_of(&ledger, &usdc, &Party::Addr(destination)), 0);

    // Pay the full balance through the forwarder
    let (transfer, event) = p.pay(payer, 10000, "invoice-1".to_string()).unwrap();
    assert_eq!(transfer.token, usdc);
    payment_apply(&mut ledger, &transfer);
    assert_eq!(payment_balance_of(&ledger, &usdc, &Party::Addr(payer)), 0);
    assert_eq!(payment_balance_of(&ledger, &usdc, &Party::Addr(destination)), 10000);
    assert_eq!(event.memo, "invoice-1".to_string());

    // Zero payments are rejected
    assert_eq!(
        p.pay(payer, 0, "invoice-2".to_string()),
        Err(PaymentError::ZeroAmount)
    );
}

#[test]
fn test_flush() {
    let mut p = Payment::new();
    let destination = gen_addr(1);
    let token = Address { key: [9; 32], is_account: false };

    p.init(destination).unwrap();

    let mut ledger: Ledger = Vec::new();
    // Mint tokens to the contract
    payment_credit(&mut ledger, &token, &Party::Custody, 5000);

    // Check initial balances
    assert_eq!(payment_balance_of(&ledger, &token, &Party::Custody), 5000);
    assert_eq!(payment_balance_of(&ledger, &token, &Party::Addr(destination)), 0);

    // Flush tokens from contract to destination
    let (t1, _) = p.flush(token, 3000).unwrap();
    payment_apply(&mut ledger, &t1);

    // Verify balances after flush
    assert_eq!(payment_balance_of(&ledger, &token, &Party::Custody), 2000);
    assert_eq!(payment_balance_of(&ledger, &token, &Party::Addr(destination)), 3000);

    // Flush remaining tokens
    let (t2, _) = p.flush(token, 2000).unwrap();
    payment_apply(&mut ledger, &t2);

    // Verify final balances
    assert_eq!(payment_balance_of(&ledger, &token, &Party::Custody), 0);
    assert_eq!(payment_balance_of(&ledger, &token, &Party::Addr(destination)), 5000);
}

#[test]
fn test_flush_zero_amount_fails() {
    let mut p = Payment::new();
    let destination = gen_addr(1);
    let token = Address { key: [9; 32], is_account: false };

    p.init(destination).unwrap();

    // Try to flush zero amount - should fail
    let result = p.flush(token, 0);
    assert!(result.is_err());
}

#[test]
fn test_flush_not_initialized_fails() {
    let p = Payment::new();
    let token = Address { key: [9; 32], is_account: false };

    // Try to flush without initialization - should fail
    let result = p.flush(token, 1000);
    assert!(result.is_err());
}

#[test]
fn test_get_destination() {
    let mut p = Payment::new();
    let destination = gen_addr(1);

    p.init(destination).unwrap();

    // Verify get_destination returns the correct address
    assert_eq!(p.get_destination(), destination);
}
