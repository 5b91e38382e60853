//! Validation of the funds attached to an incoming request.
//!
//! A request arrives with an ordered list of payments, each a pair of a
//! denomination and a non-negative amount. A caller picks exactly one policy
//! evaluator and runs it against that list; the evaluator either extracts the
//! amounts the policy asks for or reports a [`PaymentError`] saying precisely
//! why the payments were rejected. Every evaluator is a pure function with a
//! verified contract stating its result for every input it admits.

mod coin;
mod error;
mod exact;
mod laws;
mod payment;
mod render;

pub use coin::Coin;
pub use coin::CoinView;
pub use coin::coins_view;
pub use error::PaymentError;
pub use error::ErrorView;
pub use error::message_view;
pub use exact::exact_funds_sent;
pub use exact::exact_funds_sent_spec;
pub use exact::exact_match;
pub use exact::key_set;
pub use laws::lemma_must_pay_via_one_coin;
pub use laws::lemma_collect_amounts_aligned;
pub use laws::lemma_must_pay_many_aligned;
pub use laws::lemma_rerun_nonpayable;
pub use laws::lemma_rerun_one_coin;
pub use laws::lemma_rerun_must_pay;
pub use laws::lemma_rerun_may_pay;
pub use laws::lemma_rerun_must_pay_many;
pub use laws::lemma_rerun_must_pay_two_coins;
pub use laws::lemma_rerun_exact_funds_sent;
pub use payment::nonpayable;
pub use payment::nonpayable_spec;
pub use payment::one_coin;
pub use payment::one_coin_spec;
pub use payment::must_pay;
pub use payment::must_pay_spec;
pub use payment::may_pay;
pub use payment::may_pay_spec;
pub use payment::all_denoms_match;
pub use payment::first_other_denom;
pub use payment::find_denom;
pub use payment::first_foreign_denom;
pub use payment::must_pay_many;
pub use payment::must_pay_many_spec;
pub use payment::collect_amounts;
pub use payment::with_prefix;
pub use payment::denoms_view;
pub use payment::must_pay_two_coins;
pub use payment::must_pay_two_coins_spec;
pub use payment::amounts_result_view;
pub use payment::pair_result_view;
pub use payment::unit_result_view;
pub use payment::coin_result_view;
pub use payment::amount_result_view;
pub use render::amount_to_string;
pub use render::coin_to_string;
pub use render::coin_key_string;
pub use render::funds_to_string;
pub use render::dec_rep;
pub use render::coin_rendered;
pub use render::coin_key;
pub use render::funds_rendered;
pub use render::joined_rendered;
