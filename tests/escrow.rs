use tg_payments::amount::Uint256;
use tg_payments::escrow::{Coin, PendingPayments};

fn coin(amount: u128, denom: &str) -> Coin {
    Coin { amount: Uint256::from(amount), denom: denom.to_string() }
}

#[test]
fn test_one_pending_payment() {
    let mut pending = PendingPayments::default();
    pending.add_payment(coin(100, "uusd"));
    assert_eq!(pending.balance(), vec![coin(100, "uusd")]);
}

#[test]
fn test_duplicate_denom() {
    let mut pending = PendingPayments::default();
    pending.add_payment(coin(100, "uusd"));
    pending.add_payment(coin(200, "uusd"));
    assert_eq!(pending.balance(), vec![coin(300, "uusd")]);
}

#[test]
fn test_sorting_denoms() {
    let mut pending = PendingPayments::default();
    pending.add_payment(coin(100, "uusd"));
    pending.add_payment(coin(200, "ntrn"));
    assert_eq!(pending.balance(), vec![coin(200, "ntrn"), coin(100, "uusd")]);
}

#[test]
fn zero_deposit_is_ignored() {
    let mut pending = PendingPayments::default();
    pending.add_payment(coin(0, "uusd"));
    pending.add_payment(coin(5, "uatom"));
    pending.add_payment(coin(0, "uatom"));
    assert_eq!(pending.balance(), vec![coin(5, "uatom")]);
}

#[test]
fn deposits_commute_across_denoms() {
    let mut a = PendingPayments::default();
    a.add_payment(coin(100, "x"));
    a.add_payment(coin(200, "y"));
    let mut b = PendingPayments::default();
    b.add_payment(coin(200, "y"));
    b.add_payment(coin(100, "x"));
    let expected = vec![coin(100, "x"), coin(200, "y")];
    assert_eq!(a.balance(), expected);
    assert_eq!(b.balance(), expected);
}

#[test]
fn deposits_insert_in_the_middle() {
    let mut p = PendingPayments::default();
    p.add_payment(coin(1, "c"));
    p.add_payment(coin(2, "a"));
    p.add_payment(coin(3, "b"));
    p.add_payment(coin(4, "ab"));
    p.add_payment(coin(5, "a"));
    assert_eq!(
        p.balance(),
        vec![coin(7, "a"), coin(4, "ab"), coin(3, "b"), coin(1, "c")]
    );
}

#[test]
fn room_reports_overflow() {
    let mut p = PendingPayments::default();
    let near_max = Uint256 { hi: u128::MAX, lo: u128::MAX - 1 };
    p.add_payment(Coin { amount: near_max, denom: "uusd".to_string() });
    assert!(p.has_room(&"uusd".to_string(), Uint256::from(1u128)));
    assert!(!p.has_room(&"uusd".to_string(), Uint256::from(2u128)));
    assert!(p.has_room(&"uatom".to_string(), Uint256 { hi: u128::MAX, lo: u128::MAX }));
}

#[test]
fn balances_beyond_128_bits_add_up() {
    let mut p = PendingPayments::default();
    p.add_payment(coin(u128::MAX, "uusd"));
    p.add_payment(coin(u128::MAX, "uusd"));
    let expected = Uint256 { hi: 1, lo: u128::MAX - 1 };
    assert_eq!(p.balance(), vec![Coin { amount: expected, denom: "uusd".to_string() }]);
}
