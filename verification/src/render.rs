use vstd::prelude::*;
use vstd::string::StringExecFns;

use crate::coin::Coin;
use crate::coin::CoinView;
use crate::coin::coins_view;

verus! {

// ---------------------------------------------------------------------------
// Decimal representation of amounts.
// ---------------------------------------------------------------------------

/// The character for one decimal digit value.
pub open spec fn dec_digit(d: nat) -> char {
    if d == 0 {
        '0'
    } else if d == 1 {
        '1'
    } else if d == 2 {
        '2'
    } else if d == 3 {
        '3'
    } else if d == 4 {
        '4'
    } else if d == 5 {
        '5'
    } else if d == 6 {
        '6'
    } else if d == 7 {
        '7'
    } else if d == 8 {
        '8'
    } else {
        '9'
    }
}

/// The decimal representation of a natural number, most significant digit
/// first, without leading zeroes; zero is "0".
pub open spec fn dec_rep(n: nat) -> Seq<char>
    decreases n,
{
    if n < 10 {
        seq![dec_digit(n)]
    } else {
        dec_rep(n / 10) + seq![dec_digit(n % 10)]
    }
}

/// The string for one decimal digit value.
fn digit_str(d: u128) -> (s: &'static str)
    requires
        d < 10,
    ensures
        s@ == seq![dec_digit(d as nat)],
{
    let s: &'static str = if d == 0 {
        "0"
    } else if d == 1 {
        "1"
    } else if d == 2 {
        "2"
    } else if d == 3 {
        "3"
    } else if d == 4 {
        "4"
    } else if d == 5 {
        "5"
    } else if d == 6 {
        "6"
    } else if d == 7 {
        "7"
    } else if d == 8 {
        "8"
    } else {
        "9"
    };
    proof {
        reveal_strlit("0");
        reveal_strlit("1");
        reveal_strlit("2");
        reveal_strlit("3");
        reveal_strlit("4");
        reveal_strlit("5");
        reveal_strlit("6");
        reveal_strlit("7");
        reveal_strlit("8");
        reveal_strlit("9");
        assert(s@ =~= seq![dec_digit(d as nat)]);
    }
    s
}

/// The digit characters of a number already split into digits, lowest digit
/// first, read back in printing order.
spec fn rev_digit_chars(ds: Seq<u128>) -> Seq<char>
    decreases ds.len(),
{
    if ds.len() == 0 {
        Seq::empty()
    } else {
        rev_digit_chars(ds.drop_first()) + seq![dec_digit(ds[0] as nat)]
    }
}

/// Splitting off one more lowest digit moves its character to the front of
/// the printing order.
proof fn lemma_rev_digit_chars_push(ds: Seq<u128>, x: u128)
    ensures
        rev_digit_chars(ds.push(x)) =~= seq![dec_digit(x as nat)] + rev_digit_chars(ds),
    decreases ds.len(),
{
    if ds.len() == 0 {
        assert(ds.push(x).drop_first() =~= ds);
        assert(rev_digit_chars(ds) =~= Seq::<char>::empty());
    } else {
        assert(ds.push(x).drop_first() =~= ds.drop_first().push(x));
        assert(ds.push(x)[0] == ds[0]);
        lemma_rev_digit_chars_push(ds.drop_first(), x);
        assert(rev_digit_chars(ds) =~= rev_digit_chars(ds.drop_first()) + seq![
            dec_digit(ds[0] as nat),
        ]);
        assert((seq![dec_digit(x as nat)] + rev_digit_chars(ds.drop_first())) + seq![
            dec_digit(ds[0] as nat),
        ] =~= seq![dec_digit(x as nat)] + (rev_digit_chars(ds.drop_first()) + seq![
            dec_digit(ds[0] as nat),
        ]));
    }
}

/// Renders an amount in decimal.
pub fn amount_to_string(n: u128) -> (s: String)
    ensures
        s@ == dec_rep(n as nat),
{
    let mut digits: Vec<u128> = Vec::new();
    let mut m: u128 = n;
    while m >= 10
        invariant
            dec_rep(n as nat) =~= dec_rep(m as nat) + rev_digit_chars(digits@),
            forall|k: int| 0 <= k < digits@.len() ==> digits@[k] < 10,
        decreases m,
    {
        let d = m % 10;
        proof {
            lemma_rev_digit_chars_push(digits@, d);
            assert((dec_rep((m / 10) as nat) + seq![dec_digit((m % 10) as nat)])
                + rev_digit_chars(digits@) =~= dec_rep((m / 10) as nat) + (seq![
                dec_digit((m % 10) as nat),
            ] + rev_digit_chars(digits@)));
        }
        digits.push(d);
        m = m / 10;
    }
    let hi = m;
    let mut out = digit_str(hi).to_owned();
    let mut j: usize = digits.len();
    proof {
        assert(digits@.skip(j as int) =~= Seq::<u128>::empty());
        assert(out@ =~= seq![dec_digit(hi as nat)] + rev_digit_chars(digits@.skip(j as int)));
    }
    while j > 0
        invariant
            0 <= j <= digits@.len(),
            hi < 10,
            forall|k: int| 0 <= k < digits@.len() ==> digits@[k] < 10,
            dec_rep(n as nat) =~= dec_rep(hi as nat) + rev_digit_chars(digits@),
            out@ =~= seq![dec_digit(hi as nat)] + rev_digit_chars(digits@.skip(j as int)),
        decreases j,
    {
        j -= 1;
        proof {
            assert(digits@.skip(j as int).drop_first() =~= digits@.skip(j as int + 1));
            assert(digits@.skip(j as int)[0] == digits@[j as int]);
        }
        out.append(digit_str(digits[j]));
        proof {
            assert(out@ =~= seq![dec_digit(hi as nat)] + rev_digit_chars(digits@.skip(j as int)));
        }
    }
    proof {
        assert(digits@.skip(0) =~= digits@);
        assert(out@ =~= dec_rep(n as nat));
    }
    out
}

// ---------------------------------------------------------------------------
// Rendering payments and payment lists.
// ---------------------------------------------------------------------------

/// One payment in human-readable form: the amount immediately followed by the
/// denomination.
pub open spec fn coin_rendered(c: CoinView) -> Seq<char> {
    dec_rep(c.amount) + c.denom
}

/// Renders one payment.
pub fn coin_to_string(c: &Coin) -> (s: String)
    ensures
        s@ == coin_rendered(c@),
{
    let mut out = amount_to_string(c.amount);
    out.append(c.denom.as_str());
    out
}

/// The canonical key of one payment: the denomination immediately followed by
/// the amount's decimal representation.
pub open spec fn coin_key(c: CoinView) -> Seq<char> {
    c.denom + dec_rep(c.amount)
}

/// Builds one payment's canonical key.
pub fn coin_key_string(c: &Coin) -> (s: String)
    ensures
        s@ == coin_key(c@),
{
    let mut out = c.denom.clone();
    let amount = amount_to_string(c.amount);
    out.append(amount.as_str());
    out
}

/// The payments' renderings in list order, joined by ", ".
pub open spec fn joined_rendered(s: Seq<CoinView>) -> Seq<char>
    decreases s.len(),
{
    if s.len() == 0 {
        Seq::empty()
    } else if s.len() == 1 {
        coin_rendered(s[0])
    } else {
        joined_rendered(s.drop_last()) + ", "@ + coin_rendered(s.last())
    }
}

/// A payment list in human-readable form: the literal "None" when empty, else
/// the payments' renderings in list order joined by ", ". The list order is
/// kept; nothing is re-sorted.
pub open spec fn funds_rendered(s: Seq<CoinView>) -> Seq<char> {
    if s.len() == 0 {
        "None"@
    } else {
        joined_rendered(s)
    }
}

/// Renders a payment list.
pub fn funds_to_string(coins: &Vec<Coin>) -> (s: String)
    ensures
        s@ == funds_rendered(coins_view(coins@)),
{
    if coins.len() == 0 {
        return "None".to_owned();
    }
    let ghost cv = coins_view(coins@);
    let mut out = String::new();
    let mut i: usize = 0;
    while i < coins.len()
        invariant
            0 <= i <= coins@.len(),
            cv == coins_view(coins@),
            out@ =~= joined_rendered(cv.take(i as int)),
        decreases coins@.len() - i,
    {
        if i > 0 {
            out.append(", ");
        }
        let piece = coin_to_string(&coins[i]);
        out.append(piece.as_str());
        proof {
            assert(cv.take(i as int + 1).drop_last() =~= cv.take(i as int));
            assert(cv.take(i as int + 1).last() == cv[i as int]);
            assert(out@ =~= joined_rendered(cv.take(i as int + 1)));
        }
        i += 1;
    }
    proof {
        assert(cv.take(coins@.len() as int) =~= cv);
    }
    out
}

} // verus!
