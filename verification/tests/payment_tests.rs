use cw_utils::Coin;
use cw_utils::PaymentError;
use cw_utils::may_pay;
use cw_utils::must_pay;
use cw_utils::must_pay_two_coins;
use cw_utils::nonpayable;

fn coin(amount: u128, denom: &str) -> Coin {
    Coin::new(amount, denom)
}

fn coins(amount: u128, denom: &str) -> Vec<Coin> {
    vec![coin(amount, denom)]
}

#[test]
fn nonpayable_works() {
    let no_payment: Vec<Coin> = vec![];
    nonpayable(&no_payment).unwrap();

    let payment = coins(100, "uatom");
    let res = nonpayable(&payment);
    assert_eq!(res.unwrap_err(), PaymentError::NonPayable);
}

#[test]
fn may_pay_works() {
    let atom: &str = "uatom";
    let no_payment: Vec<Coin> = vec![];
    let atom_payment = coins(100, atom);
    let eth_payment = coins(100, "wei");
    let mixed_payment = vec![coin(50, atom), coin(120, "wei")];

    let res = may_pay(&no_payment, atom).unwrap();
    assert_eq!(res, 0);

    let res = may_pay(&atom_payment, atom).unwrap();
    assert_eq!(res, 100);

    let err = may_pay(&eth_payment, atom).unwrap_err();
    assert_eq!(err, PaymentError::ExtraDenom("wei".to_string()));

    let err = may_pay(&mixed_payment, atom).unwrap_err();
    assert_eq!(err, PaymentError::ExtraDenom("wei".to_string()));
}

#[test]
fn must_pay_works() {
    let atom: &str = "uatom";
    let no_payment: Vec<Coin> = vec![];
    let atom_payment = coins(100, atom);
    let zero_payment = coins(0, atom);
    let eth_payment = coins(100, "wei");
    let mixed_payment = vec![coin(50, atom), coin(120, "wei")];

    let res = must_pay(&atom_payment, atom).unwrap();
    assert_eq!(res, 100);

    let err = must_pay(&no_payment, atom).unwrap_err();
    assert_eq!(err, PaymentError::NoFunds);

    let err = must_pay(&zero_payment, atom).unwrap_err();
    assert_eq!(err, PaymentError::NoFunds);

    let err = must_pay(&eth_payment, atom).unwrap_err();
    assert_eq!(err, PaymentError::MissingDenom(atom.to_string()));

    let err = must_pay(&mixed_payment, atom).unwrap_err();
    assert_eq!(err, PaymentError::MultipleDenoms);
}

#[test]
fn must_pay_two_coins_works() {
    let atom: &str = "uatom";
    let osmo: &str = "uosmo";
    let eth: &str = "eth";
    let no_payment: Vec<Coin> = vec![];
    let atom_payment = coins(100, atom);
    let osmo_payment = coins(100, osmo);
    let two_coin_payment = vec![coin(50, atom), coin(120, eth)];
    let duplicate_coins_payment = vec![coin(50, atom), coin(120, atom)];
    let three_coin_payment = vec![coin(50, atom), coin(120, eth), coin(120, osmo)];

    let (coin_one_amount, coin_two_amount) =
        must_pay_two_coins(&two_coin_payment, atom, eth).unwrap();
    assert_eq!(coin_one_amount, 50);
    assert_eq!(coin_two_amount, 120);

    let err = must_pay_two_coins(&duplicate_coins_payment, atom, osmo).unwrap_err();
    assert_eq!(err, PaymentError::MissingDenom(osmo.to_string()));

    let err = must_pay_two_coins(&no_payment, atom, osmo).unwrap_err();
    assert_eq!(err, PaymentError::NoFunds);

    let err = must_pay_two_coins(&atom_payment, atom, osmo).unwrap_err();
    assert_eq!(err, PaymentError::MissingDenom(osmo.to_string()));

    let err = must_pay_two_coins(&osmo_payment, atom, osmo).unwrap_err();
    assert_eq!(err, PaymentError::MissingDenom(atom.to_string()));

    let err = must_pay_two_coins(&two_coin_payment, atom, osmo).unwrap_err();
    assert_eq!(err, PaymentError::MissingDenom(osmo.to_string()));

    let err = must_pay_two_coins(&three_coin_payment, osmo, atom).unwrap_err();
    assert_eq!(err, PaymentError::ExtraDenom(eth.to_string()));

    let err = must_pay_two_coins(&two_coin_payment, osmo, atom).unwrap_err();
    assert_eq!(err, PaymentError::MissingDenom(osmo.to_string()));
}

#[test]
fn payment_nonpayable_works() {
    let no_payment: Vec<Coin> = vec![];
    nonpayable(&no_payment).unwrap();

    let payment = coins(100, "uatom");
    let res = nonpayable(&payment);
    assert_eq!(res.unwrap_err(), PaymentError::NonPayable);
}

#[test]
fn payment_may_pay_works() {
    let atom: &str = "uatom";
    let no_payment: Vec<Coin> = vec![];
    let atom_payment = coins(100, atom);
    let eth_payment = coins(100, "wei");
    let mixed_payment = vec![coin(50, atom), coin(120, "wei")];

    let res = may_pay(&no_payment, atom).unwrap();
    assert_eq!(res, 0);

    let res = may_pay(&atom_payment, atom).unwrap();
    assert_eq!(res, 100);

    let err = may_pay(&eth_payment, atom).unwrap_err();
    assert_eq!(err, PaymentError::ExtraDenom("wei".to_string()));

    let err = may_pay(&mixed_payment, atom).unwrap_err();
    assert_eq!(err, PaymentError::ExtraDenom("wei".to_string()));
}

#[test]
fn payment_must_pay_works() {
    let atom: &str = "uatom";
    let no_payment: Vec<Coin> = vec![];
    let atom_payment = coins(100, atom);
    let zero_payment = coins(0, atom);
    let eth_payment = coins(100, "wei");
    let mixed_payment = vec![coin(50, atom), coin(120, "wei")];

    let res = must_pay(&atom_payment, atom).unwrap();
    assert_eq!(res, 100);

    let err = must_pay(&no_payment, atom).unwrap_err();
    assert_eq!(err, PaymentError::NoFunds);

    let err = must_pay(&zero_payment, atom).unwrap_err();
    assert_eq!(err, PaymentError::NoFunds);

    let err = must_pay(&eth_payment, atom).unwrap_err();
    assert_eq!(err, PaymentError::MissingDenom(atom.to_string()));

    let err = must_pay(&mixed_payment, atom).unwrap_err();
    assert_eq!(err, PaymentError::MultipleDenoms);
}
