use vstd::prelude::*;
use vstd::string::StringExecFns;

verus! {

/// Why a payment validation failed. A closed set of kinds, each carrying only
/// the data needed to reproduce a human-readable message; see
/// [`PaymentError::message`] for the rendering.
#[derive(Debug, PartialEq, Eq)]
pub enum PaymentError {
    /// Exactly one payment was required in this denomination, and it was not there.
    MissingDenom(String),
    /// A payment arrived in a denomination the policy does not accept.
    ExtraDenom(String),
    /// More than one payment arrived where a single one was required.
    MultipleDenoms,
    /// No payment of value arrived where one was required.
    NoFunds,
    /// A payment arrived although the policy accepts none.
    NonPayable,
    /// The number of payments differs from the number of required denominations.
    IncorrectNumberOfDenoms,
    /// The payments differ from the expected list; both sides pre-rendered.
    FundsMismatch { expected: String, received: String },
}

/// The mathematical model of a [`PaymentError`]: the same variants over
/// character sequences.
pub ghost enum ErrorView {
    MissingDenom(Seq<char>),
    ExtraDenom(Seq<char>),
    MultipleDenoms,
    NoFunds,
    NonPayable,
    IncorrectNumberOfDenoms,
    FundsMismatch { expected: Seq<char>, received: Seq<char> },
}

impl View for PaymentError {
    type V = ErrorView;

    open spec fn view(&self) -> ErrorView {
        match self {
            PaymentError::MissingDenom(d) => ErrorView::MissingDenom(d@),
            PaymentError::ExtraDenom(d) => ErrorView::ExtraDenom(d@),
            PaymentError::MultipleDenoms => ErrorView::MultipleDenoms,
            PaymentError::NoFunds => ErrorView::NoFunds,
            PaymentError::NonPayable => ErrorView::NonPayable,
            PaymentError::IncorrectNumberOfDenoms => ErrorView::IncorrectNumberOfDenoms,
            PaymentError::FundsMismatch { expected, received } => ErrorView::FundsMismatch {
                expected: expected@,
                received: received@,
            },
        }
    }
}

/// The human-readable message for each error kind.
pub open spec fn message_view(e: ErrorView) -> Seq<char> {
    match e {
        ErrorView::MissingDenom(d) => "Must send reserve token '"@ + d + "'"@,
        ErrorView::ExtraDenom(d) => "Received unsupported denom '"@ + d + "'"@,
        ErrorView::MultipleDenoms => "Sent more than one denomination"@,
        ErrorView::NoFunds => "No funds sent"@,
        ErrorView::NonPayable => "This message does no accept funds"@,
        ErrorView::IncorrectNumberOfDenoms => "Sent the wrong amount of denoms"@,
        ErrorView::FundsMismatch { expected, received } => "Funds mismatch, expected: "@ + expected
            + ", received: "@ + received,
    }
}

impl PaymentError {
    /// Renders this error's message, keyed on the variant.
    pub fn message(&self) -> (s: String)
        ensures
            s@ == message_view(self@),
    {
        match self {
            PaymentError::MissingDenom(d) => {
                let mut out = "Must send reserve token '".to_owned();
                out.append(d.as_str());
                out.append("'");
                out
            },
            PaymentError::ExtraDenom(d) => {
                let mut out = "Received unsupported denom '".to_owned();
                out.append(d.as_str());
                out.append("'");
                out
            },
            PaymentError::MultipleDenoms => "Sent more than one denomination".to_owned(),
            PaymentError::NoFunds => "No funds sent".to_owned(),
            PaymentError::NonPayable => "This message does no accept funds".to_owned(),
            PaymentError::IncorrectNumberOfDenoms => "Sent the wrong amount of denoms".to_owned(),
            PaymentError::FundsMismatch { expected, received } => {
                let mut out = "Funds mismatch, expected: ".to_owned();
                out.append(expected.as_str());
                out.append(", received: ");
                out.append(received.as_str());
                out
            },
        }
    }
}

} // verus!
