use vstd::prelude::*;

use crate::coin::Coin;
use crate::coin::CoinView;
use crate::error::ErrorView;
use crate::error::PaymentError;
use crate::exact::exact_funds_sent_spec;
use crate::payment::all_denoms_match;
use crate::payment::amount_result_view;
use crate::payment::collect_amounts;
use crate::payment::find_denom;
use crate::payment::amounts_result_view;
use crate::payment::coin_result_view;
use crate::payment::may_pay_spec;
use crate::payment::must_pay_many_spec;
use crate::payment::must_pay_spec;
use crate::payment::must_pay_two_coins_spec;
use crate::payment::nonpayable_spec;
use crate::payment::one_coin_spec;
use crate::payment::pair_result_view;
use crate::payment::unit_result_view;

verus! {

// ---------------------------------------------------------------------------
// How the evaluators relate to one another.
// ---------------------------------------------------------------------------

/// `must_pay` agrees with `one_coin` on every payment list and denomination:
/// when `one_coin` rejects the list, `must_pay` propagates that very error;
/// when `one_coin` extracts a payment, `must_pay` returns its amount if it
/// carries the requested denomination and `MissingDenom` of the requested
/// denomination otherwise.
pub proof fn lemma_must_pay_via_one_coin(funds: Seq<CoinView>, denom: Seq<char>)
    ensures
        one_coin_spec(funds) matches Err(e) ==> must_pay_spec(funds, denom) == Err::<
            nat,
            ErrorView,
        >(e),
        one_coin_spec(funds) matches Ok(c) ==> must_pay_spec(funds, denom) == (if c.denom == denom {
            Ok::<nat, ErrorView>(c.amount)
        } else {
            Err::<nat, ErrorView>(ErrorView::MissingDenom(denom))
        }),
{
}

/// When the amount collection underlying `must_pay_many` succeeds, it yields
/// exactly one amount per required denomination, and the amount at each
/// position is the non-zero amount of the first payment carrying the
/// denomination requested at that position.
pub proof fn lemma_collect_amounts_aligned(funds: Seq<CoinView>, denoms: Seq<Seq<char>>)
    requires
        collect_amounts(funds, denoms) is Ok,
    ensures
        ({
            let s = collect_amounts(funds, denoms)->Ok_0;
            &&& s.len() == denoms.len()
            &&& forall|i: int|
                0 <= i < denoms.len() ==> (#[trigger] find_denom(funds, denoms[i])
                    matches Option::Some(c) && s[i] == c.amount && c.amount != 0)
        }),
    decreases denoms.len(),
{
    if denoms.len() > 0 {
        lemma_collect_amounts_aligned(funds, denoms.drop_first());
        let c0 = find_denom(funds, denoms[0])->Some_0;
        let r = collect_amounts(funds, denoms.drop_first())->Ok_0;
        let s = collect_amounts(funds, denoms)->Ok_0;
        assert(s =~= seq![c0.amount] + r);
        assert forall|i: int|
            0 <= i < denoms.len() implies (#[trigger] find_denom(funds, denoms[i])
            matches Option::Some(c) && s[i] == c.amount && c.amount != 0) by {
            if i > 0 {
                assert(denoms.drop_first()[i - 1] == denoms[i]);
                assert(s[i] == r[i - 1]);
            }
        }
    }
}

/// `must_pay_many` returns the amounts positionally aligned with the caller's
/// requested denominations, not with the received order: on success the
/// result holds one amount per requested denomination, each the non-zero
/// amount of the first received payment in the denomination requested at that
/// position.
pub proof fn lemma_must_pay_many_aligned(funds: Seq<CoinView>, denoms: Seq<Seq<char>>)
    requires
        must_pay_many_spec(funds, denoms) is Ok,
    ensures
        funds.len() == denoms.len(),
        funds.len() >= 1,
        ({
            let s = must_pay_many_spec(funds, denoms)->Ok_0;
            &&& s.len() == denoms.len()
            &&& forall|i: int|
                0 <= i < denoms.len() ==> (#[trigger] find_denom(funds, denoms[i])
                    matches Option::Some(c) && s[i] == c.amount && c.amount != 0)
        }),
{
    lemma_collect_amounts_aligned(funds, denoms);
}

// ---------------------------------------------------------------------------
// Idempotence: every evaluator is a pure function of its inputs. Each
// evaluator's contract equates the model of its result with a function of the
// models of its inputs alone, so two runs on the same inputs return results
// with the same model.
// ---------------------------------------------------------------------------

/// Re-running `nonpayable` on the same payments yields the identical result.
pub proof fn lemma_rerun_nonpayable(
    funds: Seq<CoinView>,
    r1: Result<(), PaymentError>,
    r2: Result<(), PaymentError>,
)
    requires
        unit_result_view(r1) == nonpayable_spec(funds),
        unit_result_view(r2) == nonpayable_spec(funds),
    ensures
        unit_result_view(r1) == unit_result_view(r2),
{
}

/// Re-running `one_coin` on the same payments yields the identical result.
pub proof fn lemma_rerun_one_coin(
    funds: Seq<CoinView>,
    r1: Result<Coin, PaymentError>,
    r2: Result<Coin, PaymentError>,
)
    requires
        coin_result_view(r1) == one_coin_spec(funds),
        coin_result_view(r2) == one_coin_spec(funds),
    ensures
        coin_result_view(r1) == coin_result_view(r2),
{
}

/// Re-running `must_pay` on the same inputs yields the identical result.
pub proof fn lemma_rerun_must_pay(
    funds: Seq<CoinView>,
    denom: Seq<char>,
    r1: Result<u128, PaymentError>,
    r2: Result<u128, PaymentError>,
)
    requires
        amount_result_view(r1) == must_pay_spec(funds, denom),
        amount_result_view(r2) == must_pay_spec(funds, denom),
    ensures
        amount_result_view(r1) == amount_result_view(r2),
{
}

/// Re-running `may_pay` on the same inputs yields the identical result.
pub proof fn lemma_rerun_may_pay(
    funds: Seq<CoinView>,
    denom: Seq<char>,
    r1: Result<u128, PaymentError>,
    r2: Result<u128, PaymentError>,
)
    requires
        funds.len() >= 2 ==> !all_denoms_match(funds, denom),
        amount_result_view(r1) == may_pay_spec(funds, denom),
        amount_result_view(r2) == may_pay_spec(funds, denom),
    ensures
        amount_result_view(r1) == amount_result_view(r2),
{
}

/// Re-running `must_pay_many` on the same inputs yields the identical result.
pub proof fn lemma_rerun_must_pay_many(
    funds: Seq<CoinView>,
    denoms: Seq<Seq<char>>,
    r1: Result<Vec<u128>, PaymentError>,
    r2: Result<Vec<u128>, PaymentError>,
)
    requires
        amounts_result_view(r1) == must_pay_many_spec(funds, denoms),
        amounts_result_view(r2) == must_pay_many_spec(funds, denoms),
    ensures
        amounts_result_view(r1) == amounts_result_view(r2),
{
}

/// Re-running `must_pay_two_coins` on the same inputs yields the identical
/// result.
pub proof fn lemma_rerun_must_pay_two_coins(
    funds: Seq<CoinView>,
    d1: Seq<char>,
    d2: Seq<char>,
    r1: Result<(u128, u128), PaymentError>,
    r2: Result<(u128, u128), PaymentError>,
)
    requires
        pair_result_view(r1) == must_pay_two_coins_spec(funds, d1, d2),
        pair_result_view(r2) == must_pay_two_coins_spec(funds, d1, d2),
    ensures
        pair_result_view(r1) == pair_result_view(r2),
{
}

/// Re-running `exact_funds_sent` on the same inputs yields the identical
/// result.
pub proof fn lemma_rerun_exact_funds_sent(
    received: Seq<CoinView>,
    expected: Seq<CoinView>,
    r1: Result<(), PaymentError>,
    r2: Result<(), PaymentError>,
)
    requires
        unit_result_view(r1) == exact_funds_sent_spec(received, expected),
        unit_result_view(r2) == exact_funds_sent_spec(received, expected),
    ensures
        unit_result_view(r1) == unit_result_view(r2),
{
}

} // verus!
