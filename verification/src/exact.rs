use vstd::prelude::*;

use crate::coin::Coin;
use crate::coin::CoinView;
use crate::coin::coins_view;
use crate::error::ErrorView;
use crate::error::PaymentError;
use crate::payment::unit_result_view;
use crate::render::coin_key;
use crate::render::coin_key_string;
use crate::render::funds_rendered;
use crate::render::funds_to_string;

verus! {

// ---------------------------------------------------------------------------
// Exact match: the received payments must equal an expected list, compared as
// collections, not by position.
// ---------------------------------------------------------------------------

/// The set of distinct canonical keys occurring in a payment list.
pub open spec fn key_set(s: Seq<CoinView>) -> Set<Seq<char>> {
    Set::new(|k: Seq<char>| exists|i: int| 0 <= i < s.len() && coin_key(s[i]) == k)
}

/// The received payments pass the exact-match policy: the counts agree and
/// the two lists carry the same set of distinct keys. Duplicates are counted
/// only in the aggregate: two lists of equal length whose distinct keys agree
/// pass even if a key's multiplicity differs between them.
pub open spec fn exact_match(received: Seq<CoinView>, expected: Seq<CoinView>) -> bool {
    received.len() == expected.len() && key_set(received) == key_set(expected)
}

/// What `exact_funds_sent` returns: unit when the lists match exactly, else
/// `FundsMismatch` carrying both sides rendered in their own original order.
pub open spec fn exact_funds_sent_spec(
    received: Seq<CoinView>,
    expected: Seq<CoinView>,
) -> Result<(), ErrorView> {
    if exact_match(received, expected) {
        Ok(())
    } else {
        Err(
            ErrorView::FundsMismatch {
                expected: funds_rendered(expected),
                received: funds_rendered(received),
            },
        )
    }
}

/// Whether some payment in the list has the given canonical key.
fn has_key(coins: &Vec<Coin>, key: &String) -> (r: bool)
    ensures
        r == key_set(coins_view(coins@)).contains(key@),
{
    let ghost cv = coins_view(coins@);
    let mut j: usize = 0;
    while j < coins.len()
        invariant
            0 <= j <= coins@.len(),
            cv == coins_view(coins@),
            forall|jj: int| 0 <= jj < j ==> coin_key(cv[jj]) != key@,
        decreases coins@.len() - j,
    {
        let kb = coin_key_string(&coins[j]);
        if kb == *key {
            proof {
                assert(coin_key(cv[j as int]) == key@);
                assert(key_set(cv).contains(key@));
            }
            return true;
        }
        j += 1;
    }
    false
}

/// Whether every key of `a` also occurs in `b`.
fn keys_contained(a: &Vec<Coin>, b: &Vec<Coin>) -> (r: bool)
    ensures
        r == key_set(coins_view(a@)).subset_of(key_set(coins_view(b@))),
{
    let ghost av = coins_view(a@);
    let ghost bv = coins_view(b@);
    let mut i: usize = 0;
    while i < a.len()
        invariant
            0 <= i <= a@.len(),
            av == coins_view(a@),
            bv == coins_view(b@),
            forall|ii: int| 0 <= ii < i ==> key_set(bv).contains(#[trigger] coin_key(av[ii])),
        decreases a@.len() - i,
    {
        let ka = coin_key_string(&a[i]);
        if !has_key(b, &ka) {
            proof {
                assert(key_set(av).contains(coin_key(av[i as int])));
            }
            return false;
        }
        i += 1;
    }
    proof {
        assert forall|k: Seq<char>| key_set(av).contains(k) implies key_set(bv).contains(k) by {
            let ii = choose|ii: int| 0 <= ii < av.len() && coin_key(av[ii]) == k;
            assert(key_set(bv).contains(coin_key(av[ii])));
        }
    }
    true
}

/// Requires the received payments to match the expected list exactly, compared
/// as collections: the order of either side carries no weight, but the counts
/// must agree and every distinct (denomination, amount) key of one side must
/// occur on the other. On mismatch, both lists are rendered in their original
/// order into the error.
pub fn exact_funds_sent(received: &Vec<Coin>, expected: &Vec<Coin>) -> (r: Result<
    (),
    PaymentError,
>)
    ensures
        unit_result_view(r) == exact_funds_sent_spec(coins_view(received@), coins_view(expected@)),
        r is Ok <==> exact_match(coins_view(received@), coins_view(expected@)),
{
    let ghost rv = coins_view(received@);
    let ghost ev = coins_view(expected@);
    if received.len() == expected.len() && keys_contained(received, expected) && keys_contained(
        expected,
        received,
    ) {
        proof {
            assert(key_set(rv) =~= key_set(ev));
        }
        Ok(())
    } else {
        proof {
            if key_set(rv) == key_set(ev) {
                assert(key_set(rv).subset_of(key_set(ev)));
                assert(key_set(ev).subset_of(key_set(rv)));
            }
        }
        Err(
            PaymentError::FundsMismatch {
                expected: funds_to_string(expected),
                received: funds_to_string(received),
            },
        )
    }
}

} // verus!
