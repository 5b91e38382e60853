use vstd::prelude::*;

verus! {

/// A single payment attached to a request: a denomination identifier and a
/// non-negative amount. Amounts of zero are representable (a zero-amount
/// payment still occupies a slot in the request) but every policy that
/// inspects amounts treats them as absent.
#[derive(Debug, PartialEq, Eq)]
pub struct Coin {
    pub denom: String,
    pub amount: u128,
}

/// The mathematical model of a payment: the denomination's characters and the
/// amount as an unbounded natural number. Contracts are stated over this model.
pub ghost struct CoinView {
    pub denom: Seq<char>,
    pub amount: nat,
}

impl View for Coin {
    type V = CoinView;

    open spec fn view(&self) -> CoinView {
        CoinView { denom: self.denom@, amount: self.amount as nat }
    }
}

/// The model of a whole payment list.
pub open spec fn coins_view(s: Seq<Coin>) -> Seq<CoinView> {
    s.map_values(|c: Coin| c@)
}

impl Coin {
    /// Builds a payment from an amount and a denomination.
    pub fn new(amount: u128, denom: &str) -> (c: Coin)
        ensures
            c@ == (CoinView { denom: denom@, amount: amount as nat }),
    {
        Coin { denom: denom.to_owned(), amount }
    }
}

impl Clone for Coin {
    fn clone(&self) -> (c: Self)
        ensures
            c@ == self@,
    {
        Coin { denom: self.denom.clone(), amount: self.amount }
    }
}

} // verus!
