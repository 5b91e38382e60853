use vstd::prelude::*;

use crate::coin::Coin;
use crate::coin::CoinView;
use crate::coin::coins_view;
use crate::error::ErrorView;
use crate::error::PaymentError;

verus! {

// ---------------------------------------------------------------------------
// Result models: each evaluator's result, lifted to the mathematical model.
// ---------------------------------------------------------------------------

/// Model of a unit result.
pub open spec fn unit_result_view(r: Result<(), PaymentError>) -> Result<(), ErrorView> {
    match r {
        Ok(u) => Ok(u),
        Err(e) => Err(e@),
    }
}

/// Model of a result carrying one payment.
pub open spec fn coin_result_view(r: Result<Coin, PaymentError>) -> Result<CoinView, ErrorView> {
    match r {
        Ok(c) => Ok(c@),
        Err(e) => Err(e@),
    }
}

/// Model of a result carrying one amount.
pub open spec fn amount_result_view(r: Result<u128, PaymentError>) -> Result<nat, ErrorView> {
    match r {
        Ok(a) => Ok(a as nat),
        Err(e) => Err(e@),
    }
}

// ---------------------------------------------------------------------------
// Non-payable check: the policy that accepts no funds at all.
// ---------------------------------------------------------------------------

/// What `nonpayable` returns: unit exactly when the payment list is empty.
/// Even a zero-amount payment occupies a slot and is rejected.
pub open spec fn nonpayable_spec(funds: Seq<CoinView>) -> Result<(), ErrorView> {
    if funds.len() == 0 {
        Ok(())
    } else {
        Err(ErrorView::NonPayable)
    }
}

/// Returns an error if any payments were sent. Succeeds exactly on the empty
/// payment list.
pub fn nonpayable(funds: &Vec<Coin>) -> (r: Result<(), PaymentError>)
    ensures
        unit_result_view(r) == nonpayable_spec(coins_view(funds@)),
        r is Ok <==> funds@.len() == 0,
        r matches Err(e) ==> e@ is NonPayable,
{
    if funds.len() == 0 {
        Ok(())
    } else {
        Err(PaymentError::NonPayable)
    }
}

// ---------------------------------------------------------------------------
// Single-coin extraction: exactly one payment of non-zero amount.
// ---------------------------------------------------------------------------

/// What `one_coin` returns: the sole payment when there is exactly one and its
/// amount is non-zero; `NoFunds` when the list is empty or holds one payment
/// of amount zero; `MultipleDenoms` when there are two or more payments, even
/// if they share one denomination.
pub open spec fn one_coin_spec(funds: Seq<CoinView>) -> Result<CoinView, ErrorView> {
    if funds.len() == 0 {
        Err(ErrorView::NoFunds)
    } else if funds.len() == 1 {
        if funds[0].amount == 0 {
            Err(ErrorView::NoFunds)
        } else {
            Ok(funds[0])
        }
    } else {
        Err(ErrorView::MultipleDenoms)
    }
}

/// If exactly one payment of non-zero amount was sent, returns it regardless
/// of denomination; errors otherwise.
pub fn one_coin(funds: &Vec<Coin>) -> (r: Result<Coin, PaymentError>)
    ensures
        coin_result_view(r) == one_coin_spec(coins_view(funds@)),
        r is Ok <==> (funds@.len() == 1 && funds@[0]@.amount != 0),
        r matches Ok(c) ==> c@ == funds@[0]@,
        (r matches Err(e) && e@ is NoFunds) <==> (funds@.len() == 0 || (funds@.len() == 1
            && funds@[0]@.amount == 0)),
        (r matches Err(e) && e@ is MultipleDenoms) <==> funds@.len() >= 2,
{
    if funds.len() == 0 {
        Err(PaymentError::NoFunds)
    } else if funds.len() == 1 {
        let coin = &funds[0];
        if coin.amount == 0 {
            Err(PaymentError::NoFunds)
        } else {
            Ok(coin.clone())
        }
    } else {
        Err(PaymentError::MultipleDenoms)
    }
}

// ---------------------------------------------------------------------------
// Required-denomination extraction: one payment of one named denomination.
// ---------------------------------------------------------------------------

/// What `must_pay` returns: the amount of the sole payment when `one_coin`
/// accepts the list and that payment's denomination equals `denom`;
/// `one_coin`'s own error when it rejects the list; `MissingDenom(denom)`
/// when the sole payment is in the wrong denomination.
pub open spec fn must_pay_spec(funds: Seq<CoinView>, denom: Seq<char>) -> Result<nat, ErrorView> {
    match one_coin_spec(funds) {
        Err(e) => Err(e),
        Ok(c) => if c.denom != denom {
            Err(ErrorView::MissingDenom(denom))
        } else {
            Ok(c.amount)
        },
    }
}

/// Requires exactly one payment of non-zero amount in the requested
/// denomination, and returns its amount; errors otherwise.
pub fn must_pay(funds: &Vec<Coin>, denom: &str) -> (r: Result<u128, PaymentError>)
    ensures
        amount_result_view(r) == must_pay_spec(coins_view(funds@), denom@),
        r is Ok <==> (one_coin_spec(coins_view(funds@)) matches Ok(c) && c.denom == denom@),
{
    let coin = match one_coin(funds) {
        Ok(c) => c,
        Err(e) => {
            return Err(e);
        },
    };
    let expected = denom.to_owned();
    if coin.denom == expected {
        Ok(coin.amount)
    } else {
        Err(PaymentError::MissingDenom(expected))
    }
}

// ---------------------------------------------------------------------------
// Optional-denomination extraction: nothing, or one payment of one named
// denomination.
// ---------------------------------------------------------------------------

/// Every payment in the list is in the requested denomination.
pub open spec fn all_denoms_match(funds: Seq<CoinView>, denom: Seq<char>) -> bool {
    forall|i: int| 0 <= i < funds.len() ==> funds[i].denom == denom
}

/// The denomination of the first payment in list order whose denomination
/// differs from the requested one, if any payment differs.
pub open spec fn first_other_denom(funds: Seq<CoinView>, denom: Seq<char>) -> Option<Seq<char>>
    decreases funds.len(),
{
    if funds.len() == 0 {
        Option::None
    } else if funds[0].denom != denom {
        Option::Some(funds[0].denom)
    } else {
        first_other_denom(funds.drop_first(), denom)
    }
}

/// What `may_pay` returns: amount zero on the empty list; the sole payment's
/// amount when there is exactly one payment and it is in the requested
/// denomination, even if that amount is zero; otherwise `ExtraDenom` naming
/// the first payment in list order whose denomination differs. On a list of
/// two or more payments all in the requested denomination no result is
/// specified: `may_pay` excludes that input.
pub open spec fn may_pay_spec(funds: Seq<CoinView>, denom: Seq<char>) -> Result<nat, ErrorView>
    recommends
        funds.len() >= 2 ==> !all_denoms_match(funds, denom),
{
    if funds.len() == 0 {
        Ok(0)
    } else if funds.len() == 1 && funds[0].denom == denom {
        Ok(funds[0].amount)
    } else {
        match first_other_denom(funds, denom) {
            Option::Some(d) => Err(ErrorView::ExtraDenom(d)),
            Option::None => arbitrary(),
        }
    }
}

/// When every payment before position `i` matches `denom` and the payment at
/// `i` does not, that payment's denomination is the first differing one.
proof fn lemma_first_other_denom_at(funds: Seq<CoinView>, denom: Seq<char>, i: int)
    requires
        0 <= i < funds.len(),
        forall|j: int| 0 <= j < i ==> funds[j].denom == denom,
        funds[i].denom != denom,
    ensures
        first_other_denom(funds, denom) == Option::Some(funds[i].denom),
    decreases i,
{
    if i > 0 {
        lemma_first_other_denom_at(funds.drop_first(), denom, i - 1);
        assert(funds.drop_first()[i - 1] == funds[i]);
    }
}

/// Payment is optional, but anything paid must be in the requested
/// denomination: returns the amount of `denom` sent, or zero if nothing was
/// sent, and `ExtraDenom` on the first payment in a different denomination.
/// A list of two or more payments all in the requested denomination is
/// outside this evaluator's domain.
pub fn may_pay(funds: &Vec<Coin>, denom: &str) -> (r: Result<u128, PaymentError>)
    requires
        funds@.len() >= 2 ==> !all_denoms_match(coins_view(funds@), denom@),
    ensures
        amount_result_view(r) == may_pay_spec(coins_view(funds@), denom@),
        funds@.len() == 0 ==> (r matches Ok(a) && a == 0),
        funds@.len() == 1 && funds@[0]@.denom == denom@ ==> (r matches Ok(a) && a as nat
            == funds@[0]@.amount),
        r matches Err(e) ==> e@ == ErrorView::ExtraDenom(
            first_other_denom(coins_view(funds@), denom@)->Some_0,
        ),
{
    let expected = denom.to_owned();
    if funds.len() == 0 {
        Ok(0)
    } else if funds.len() == 1 && funds[0].denom == expected {
        Ok(funds[0].amount)
    } else {
        // Find the first payment in a different denomination.
        let ghost fv = coins_view(funds@);
        let mut i: usize = 0;
        while i < funds.len()
            invariant
                0 <= i <= funds@.len(),
                fv == coins_view(funds@),
                expected@ == denom@,
                funds@.len() >= 2 ==> !all_denoms_match(fv, denom@),
                !(funds@.len() == 1 && fv[0].denom == denom@),
                funds@.len() >= 1,
                forall|j: int| 0 <= j < i ==> fv[j].denom == denom@,
            decreases funds@.len() - i,
        {
            if !(funds[i].denom == expected) {
                proof {
                    lemma_first_other_denom_at(fv, denom@, i as int);
                }
                return Err(PaymentError::ExtraDenom(funds[i].denom.clone()));
            }
            i += 1;
        }
        // Unreachable: some payment must differ, whether the list has one
        // entry or several.
        proof {
            assert(fv[0].denom == denom@);
            assert(all_denoms_match(fv, denom@));
            assert(false);
        }
        Err(PaymentError::NoFunds)
    }
}

// ---------------------------------------------------------------------------
// Multi-denomination extraction: one payment for each required denomination.
// ---------------------------------------------------------------------------

/// The model of a list of required denominations.
pub open spec fn denoms_view(s: Seq<String>) -> Seq<Seq<char>> {
    s.map_values(|d: String| d@)
}

/// Model of a result carrying one amount per required denomination.
pub open spec fn amounts_result_view(r: Result<Vec<u128>, PaymentError>) -> Result<
    Seq<nat>,
    ErrorView,
> {
    match r {
        Ok(v) => Ok(v@.map_values(|a: u128| a as nat)),
        Err(e) => Err(e@),
    }
}

/// The first payment in list order in denomination `denom`, if any.
pub open spec fn find_denom(funds: Seq<CoinView>, denom: Seq<char>) -> Option<CoinView>
    decreases funds.len(),
{
    if funds.len() == 0 {
        Option::None
    } else if funds[0].denom == denom {
        Option::Some(funds[0])
    } else {
        find_denom(funds.drop_first(), denom)
    }
}

/// When every payment before position `i` misses `denom` and the payment at
/// `i` carries it, that payment is the first one found.
proof fn lemma_find_denom_at(funds: Seq<CoinView>, denom: Seq<char>, i: int)
    requires
        0 <= i < funds.len(),
        forall|j: int| 0 <= j < i ==> funds[j].denom != denom,
        funds[i].denom == denom,
    ensures
        find_denom(funds, denom) == Option::Some(funds[i]),
    decreases i,
{
    if i > 0 {
        lemma_find_denom_at(funds.drop_first(), denom, i - 1);
        assert(funds.drop_first()[i - 1] == funds[i]);
    }
}

/// When no payment carries `denom`, nothing is found.
proof fn lemma_find_denom_none(funds: Seq<CoinView>, denom: Seq<char>)
    requires
        forall|j: int| 0 <= j < funds.len() ==> funds[j].denom != denom,
    ensures
        find_denom(funds, denom) is None,
    decreases funds.len(),
{
    if funds.len() > 0 {
        lemma_find_denom_none(funds.drop_first(), denom);
    }
}

/// Position of the first payment in denomination `denom`, if any.
fn find_first(funds: &Vec<Coin>, denom: &String) -> (r: Option<usize>)
    ensures
        r matches Some(i) ==> i < funds@.len() && find_denom(coins_view(funds@), denom@)
            == Option::Some(coins_view(funds@)[i as int]),
        r is None ==> find_denom(coins_view(funds@), denom@) is None,
{
    let ghost fv = coins_view(funds@);
    let mut i: usize = 0;
    while i < funds.len()
        invariant
            0 <= i <= funds@.len(),
            fv == coins_view(funds@),
            forall|j: int| 0 <= j < i ==> fv[j].denom != denom@,
        decreases funds@.len() - i,
    {
        if funds[i].denom == *denom {
            proof {
                lemma_find_denom_at(fv, denom@, i as int);
            }
            return Some(i);
        }
        i += 1;
    }
    proof {
        lemma_find_denom_none(fv, denom@);
    }
    None
}

/// The amounts extracted for the required denominations, in the caller's
/// order: for each denomination in turn, the first payment carrying it; a
/// missing denomination fails with `MissingDenom`, one of amount zero with
/// `NoFunds`, and the first failure wins.
pub open spec fn collect_amounts(funds: Seq<CoinView>, denoms: Seq<Seq<char>>) -> Result<
    Seq<nat>,
    ErrorView,
>
    decreases denoms.len(),
{
    if denoms.len() == 0 {
        Ok(Seq::empty())
    } else {
        match find_denom(funds, denoms[0]) {
            Option::None => Err(ErrorView::MissingDenom(denoms[0])),
            Option::Some(c) => {
                if c.amount == 0 {
                    Err(ErrorView::NoFunds)
                } else {
                    match collect_amounts(funds, denoms.drop_first()) {
                        Ok(rest) => Ok(seq![c.amount] + rest),
                        Err(e) => Err(e),
                    }
                }
            },
        }
    }
}

/// A list of already extracted amounts, followed by what the rest of the
/// extraction yields.
pub open spec fn with_prefix(prefix: Seq<nat>, rest: Result<Seq<nat>, ErrorView>) -> Result<
    Seq<nat>,
    ErrorView,
> {
    match rest {
        Ok(s) => Ok(prefix + s),
        Err(e) => Err(e),
    }
}

/// What `must_pay_many` returns: `NoFunds` on the empty payment list;
/// `IncorrectNumberOfDenoms` when the number of payments differs from the
/// number of required denominations; otherwise the collected amounts,
/// positionally aligned with the required denominations.
pub open spec fn must_pay_many_spec(funds: Seq<CoinView>, denoms: Seq<Seq<char>>) -> Result<
    Seq<nat>,
    ErrorView,
> {
    if funds.len() == 0 {
        Err(ErrorView::NoFunds)
    } else if funds.len() != denoms.len() {
        Err(ErrorView::IncorrectNumberOfDenoms)
    } else {
        collect_amounts(funds, denoms)
    }
}

/// Requires one payment of non-zero amount for each required denomination and
/// returns the amounts in the caller's denomination order, not the received
/// order. Extra received denominations surface only through the count check.
pub fn must_pay_many(funds: &Vec<Coin>, required_denoms: &Vec<String>) -> (r: Result<
    Vec<u128>,
    PaymentError,
>)
    ensures
        amounts_result_view(r) == must_pay_many_spec(
            coins_view(funds@),
            denoms_view(required_denoms@),
        ),
{
    if funds.len() == 0 {
        return Err(PaymentError::NoFunds);
    }
    if funds.len() != required_denoms.len() {
        return Err(PaymentError::IncorrectNumberOfDenoms);
    }
    let ghost fv = coins_view(funds@);
    let ghost dv = denoms_view(required_denoms@);
    let mut amounts: Vec<u128> = Vec::new();
    let mut i: usize = 0;
    proof {
        assert(dv.skip(0) =~= dv);
        assert(amounts@.map_values(|a: u128| a as nat) =~= Seq::<nat>::empty());
        match collect_amounts(fv, dv) {
            Ok(s) => {
                assert(Seq::<nat>::empty() + s =~= s);
            },
            Err(e) => {},
        }
    }
    while i < required_denoms.len()
        invariant
            0 <= i <= dv.len(),
            fv == coins_view(funds@),
            dv == denoms_view(required_denoms@),
            fv.len() >= 1,
            fv.len() == dv.len(),
            amounts@.len() == i,
            collect_amounts(fv, dv) == with_prefix(
                amounts@.map_values(|a: u128| a as nat),
                collect_amounts(fv, dv.skip(i as int)),
            ),
        decreases dv.len() - i,
    {
        proof {
            assert(dv.skip(i as int)[0] == dv[i as int]);
        }
        match find_first(funds, &required_denoms[i]) {
            None => {
                return Err(PaymentError::MissingDenom(required_denoms[i].clone()));
            },
            Some(j) => {
                if funds[j].amount == 0 {
                    return Err(PaymentError::NoFunds);
                }
                proof {
                    let ghost prefix = amounts@.map_values(|a: u128| a as nat);
                    assert(dv.skip(i as int).drop_first() =~= dv.skip(i as int + 1));
                    match collect_amounts(fv, dv.skip(i as int + 1)) {
                        Ok(rest) => {
                            assert((prefix + seq![fv[j as int].amount]) + rest =~= prefix + (
                            seq![fv[j as int].amount] + rest));
                            assert(amounts@.push(funds@[j as int].amount).map_values(
                                |a: u128| a as nat,
                            ) =~= prefix + seq![fv[j as int].amount]);
                        },
                        Err(e) => {
                            assert(amounts@.push(funds@[j as int].amount).map_values(
                                |a: u128| a as nat,
                            ) =~= prefix + seq![fv[j as int].amount]);
                        },
                    }
                }
                amounts.push(funds[j].amount);
            },
        }
        i += 1;
    }
    proof {
        assert(dv.skip(i as int) =~= Seq::<Seq<char>>::empty());
        assert(amounts@.map_values(|a: u128| a as nat) + Seq::<nat>::empty() =~= amounts@.map_values(
            |a: u128| a as nat,
        ));
    }
    Ok(amounts)
}

// ---------------------------------------------------------------------------
// Two-denomination extraction: one payment for each of two named
// denominations, and nothing else.
// ---------------------------------------------------------------------------

/// Model of a result carrying a pair of amounts.
pub open spec fn pair_result_view(r: Result<(u128, u128), PaymentError>) -> Result<
    (nat, nat),
    ErrorView,
> {
    match r {
        Ok(p) => Ok((p.0 as nat, p.1 as nat)),
        Err(e) => Err(e@),
    }
}

/// The denomination of the first payment in list order that carries neither
/// `d1` nor `d2`, if any payment does.
pub open spec fn first_foreign_denom(
    funds: Seq<CoinView>,
    d1: Seq<char>,
    d2: Seq<char>,
) -> Option<Seq<char>>
    decreases funds.len(),
{
    if funds.len() == 0 {
        Option::None
    } else if funds[0].denom != d1 && funds[0].denom != d2 {
        Option::Some(funds[0].denom)
    } else {
        first_foreign_denom(funds.drop_first(), d1, d2)
    }
}

/// When every payment before position `i` carries one of the two
/// denominations and the payment at `i` carries neither, that payment's
/// denomination is the first foreign one.
proof fn lemma_first_foreign_denom_at(funds: Seq<CoinView>, d1: Seq<char>, d2: Seq<char>, i: int)
    requires
        0 <= i < funds.len(),
        forall|j: int| 0 <= j < i ==> (funds[j].denom == d1 || funds[j].denom == d2),
        funds[i].denom != d1,
        funds[i].denom != d2,
    ensures
        first_foreign_denom(funds, d1, d2) == Option::Some(funds[i].denom),
    decreases i,
{
    if i > 0 {
        lemma_first_foreign_denom_at(funds.drop_first(), d1, d2, i - 1);
        assert(funds.drop_first()[i - 1] == funds[i]);
    }
}

/// When every payment carries one of the two denominations, none is foreign.
proof fn lemma_first_foreign_denom_none(funds: Seq<CoinView>, d1: Seq<char>, d2: Seq<char>)
    requires
        forall|j: int| 0 <= j < funds.len() ==> (funds[j].denom == d1 || funds[j].denom == d2),
    ensures
        first_foreign_denom(funds, d1, d2) is None,
    decreases funds.len(),
{
    if funds.len() > 0 {
        lemma_first_foreign_denom_none(funds.drop_first(), d1, d2);
    }
}

/// What `must_pay_two_coins` returns: `NoFunds` on the empty list; for each
/// of the two denominations in caller order, the first payment carrying it,
/// where a missing denomination fails with `MissingDenom` and one of amount
/// zero with `NoFunds`; then `ExtraDenom` on the first payment in any other
/// denomination; else the pair of amounts in caller order.
pub open spec fn must_pay_two_coins_spec(
    funds: Seq<CoinView>,
    d1: Seq<char>,
    d2: Seq<char>,
) -> Result<(nat, nat), ErrorView> {
    if funds.len() == 0 {
        Err(ErrorView::NoFunds)
    } else {
        match find_denom(funds, d1) {
            Option::None => Err(ErrorView::MissingDenom(d1)),
            Option::Some(c1) => if c1.amount == 0 {
                Err(ErrorView::NoFunds)
            } else {
                match find_denom(funds, d2) {
                    Option::None => Err(ErrorView::MissingDenom(d2)),
                    Option::Some(c2) => if c2.amount == 0 {
                        Err(ErrorView::NoFunds)
                    } else {
                        match first_foreign_denom(funds, d1, d2) {
                            Option::Some(d) => Err(ErrorView::ExtraDenom(d)),
                            Option::None => Ok((c1.amount, c2.amount)),
                        }
                    },
                }
            },
        }
    }
}

/// Requires one payment of non-zero amount in each of the two requested
/// denominations and no payment in any other denomination; returns the two
/// amounts in the caller's order.
pub fn must_pay_two_coins(funds: &Vec<Coin>, denom_one: &str, denom_two: &str) -> (r: Result<
    (u128, u128),
    PaymentError,
>)
    ensures
        pair_result_view(r) == must_pay_two_coins_spec(coins_view(funds@), denom_one@, denom_two@),
{
    if funds.len() == 0 {
        return Err(PaymentError::NoFunds);
    }
    let ghost fv = coins_view(funds@);
    let d1 = denom_one.to_owned();
    let d2 = denom_two.to_owned();
    let amount_one = match find_first(funds, &d1) {
        None => {
            return Err(PaymentError::MissingDenom(d1));
        },
        Some(i) => {
            if funds[i].amount == 0 {
                return Err(PaymentError::NoFunds);
            }
            funds[i].amount
        },
    };
    let amount_two = match find_first(funds, &d2) {
        None => {
            return Err(PaymentError::MissingDenom(d2));
        },
        Some(i) => {
            if funds[i].amount == 0 {
                return Err(PaymentError::NoFunds);
            }
            funds[i].amount
        },
    };
    // Reject the first payment in any other denomination.
    let mut i: usize = 0;
    while i < funds.len()
        invariant
            0 <= i <= funds@.len(),
            fv == coins_view(funds@),
            fv.len() >= 1,
            d1@ == denom_one@,
            d2@ == denom_two@,
            find_denom(fv, d1@) matches Option::Some(c1) && c1.amount != 0,
            find_denom(fv, d2@) matches Option::Some(c2) && c2.amount != 0,
            forall|j: int| 0 <= j < i ==> (fv[j].denom == d1@ || fv[j].denom == d2@),
        decreases funds@.len() - i,
    {
        if !(funds[i].denom == d1) && !(funds[i].denom == d2) {
            proof {
                lemma_first_foreign_denom_at(fv, d1@, d2@, i as int);
            }
            return Err(PaymentError::ExtraDenom(funds[i].denom.clone()));
        }
        i += 1;
    }
    proof {
        lemma_first_foreign_denom_none(fv, d1@, d2@);
    }
    Ok((amount_one, amount_two))
}

} // verus!
