use cw_utils::Coin;
use cw_utils::PaymentError;
use cw_utils::amount_to_string;
use cw_utils::coin_key_string;
use cw_utils::coin_to_string;
use cw_utils::exact_funds_sent;
use cw_utils::funds_to_string;
use cw_utils::may_pay;
use cw_utils::must_pay;
use cw_utils::must_pay_many;
use cw_utils::must_pay_two_coins;
use cw_utils::nonpayable;
use cw_utils::one_coin;

fn coin(amount: u128, denom: &str) -> Coin {
    Coin::new(amount, denom)
}

#[test]
fn amount_to_string_works() {
    assert_eq!(amount_to_string(0), "0");
    assert_eq!(amount_to_string(7), "7");
    assert_eq!(amount_to_string(10), "10");
    assert_eq!(amount_to_string(120), "120");
    assert_eq!(amount_to_string(1000000), "1000000");
    assert_eq!(
        amount_to_string(u128::MAX),
        "340282366920938463463374607431768211455"
    );
}

#[test]
fn coin_to_string_works() {
    assert_eq!(coin_to_string(&coin(120, "uatom")), "120uatom");
    assert_eq!(coin_to_string(&coin(0, "wei")), "0wei");
}

#[test]
fn coin_key_string_works() {
    assert_eq!(coin_key_string(&coin(120, "uatom")), "uatom120");
    assert_eq!(coin_key_string(&coin(0, "wei")), "wei0");
}

#[test]
fn funds_to_string_works() {
    let empty: Vec<Coin> = vec![];
    assert_eq!(funds_to_string(&empty), "None");

    let one = vec![coin(50, "uosmo")];
    assert_eq!(funds_to_string(&one), "50uosmo");

    let several = vec![coin(50, "uosmo"), coin(120, "uatom")];
    assert_eq!(funds_to_string(&several), "50uosmo, 120uatom");
}

#[test]
fn message_works() {
    assert_eq!(
        PaymentError::MissingDenom("uatom".to_string()).message(),
        "Must send reserve token 'uatom'"
    );
    assert_eq!(
        PaymentError::ExtraDenom("wei".to_string()).message(),
        "Received unsupported denom 'wei'"
    );
    assert_eq!(
        PaymentError::MultipleDenoms.message(),
        "Sent more than one denomination"
    );
    assert_eq!(PaymentError::NoFunds.message(), "No funds sent");
    assert_eq!(
        PaymentError::NonPayable.message(),
        "This message does no accept funds"
    );
    assert_eq!(
        PaymentError::IncorrectNumberOfDenoms.message(),
        "Sent the wrong amount of denoms"
    );
    assert_eq!(
        PaymentError::FundsMismatch {
            expected: "50uosmo".to_string(),
            received: "None".to_string(),
        }
        .message(),
        "Funds mismatch, expected: 50uosmo, received: None"
    );
}

#[test]
fn one_coin_works() {
    let no_payment: Vec<Coin> = vec![];
    assert_eq!(one_coin(&no_payment).unwrap_err(), PaymentError::NoFunds);

    let zero_payment = vec![coin(0, "uatom")];
    assert_eq!(one_coin(&zero_payment).unwrap_err(), PaymentError::NoFunds);

    let single = vec![coin(100, "uatom")];
    assert_eq!(one_coin(&single).unwrap(), coin(100, "uatom"));

    // Two payments of one denomination still count as multiple.
    let doubled = vec![coin(50, "uatom"), coin(50, "uatom")];
    assert_eq!(
        one_coin(&doubled).unwrap_err(),
        PaymentError::MultipleDenoms
    );
}

#[test]
fn may_pay_accepts_single_zero_amount_match() {
    // Unlike one_coin, a lone zero-amount payment in the requested
    // denomination counts as "zero paid".
    let zero_payment = vec![coin(0, "uatom")];
    assert_eq!(may_pay(&zero_payment, "uatom").unwrap(), 0);
}

#[test]
fn rerun_yields_identical_results() {
    let no_payment: Vec<Coin> = vec![];
    let funds = vec![coin(50, "uatom"), coin(30, "uosmo")];
    let single = vec![coin(100, "uatom")];
    let denoms = vec!["uosmo".to_string(), "uatom".to_string()];
    let expected = vec![coin(30, "uosmo"), coin(50, "uatom")];

    assert_eq!(nonpayable(&funds), nonpayable(&funds));
    assert_eq!(one_coin(&funds), one_coin(&funds));
    assert_eq!(must_pay(&single, "uatom"), must_pay(&single, "uatom"));
    assert_eq!(may_pay(&single, "uatom"), may_pay(&single, "uatom"));
    assert_eq!(may_pay(&no_payment, "uatom"), may_pay(&no_payment, "uatom"));
    assert_eq!(
        must_pay_many(&funds, &denoms),
        must_pay_many(&funds, &denoms)
    );
    assert_eq!(
        must_pay_two_coins(&funds, "uosmo", "uatom"),
        must_pay_two_coins(&funds, "uosmo", "uatom")
    );
    assert_eq!(
        exact_funds_sent(&funds, &expected),
        exact_funds_sent(&funds, &expected)
    );
}
