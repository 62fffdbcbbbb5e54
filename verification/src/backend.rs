//! The backend contract that a quota is metered through: a check and a debit.

use crate::json::{members, Json};
use crate::transport::is_status;
use vstd::prelude::*;

verus! {

/// Verdict of a backend check.
#[derive(Debug, Clone, Copy, PartialEq, Eq, Structural)]
pub enum CheckOutcome {
    /// Within budget: the request may proceed.
    WithinLimit,
    /// Over budget: the request must be refused.
    OverLimit,
}

/// A backend call that failed or answered unrecognizably. Distinct from an over-limit
/// verdict, which is a successful [`CheckOutcome`].
#[derive(Debug)]
pub struct BackendError {
    /// Human-readable cause, for logs and fail-closed denials.
    pub message: String,
}

impl BackendError {
    /// The error as it is shown to people: its message.
    pub fn to_string(&self) -> (text: String)
        ensures
            text@ == self.message@,
    {
        self.message.clone()
    }
}

impl View for BackendError {
    type V = Seq<char>;

    open spec fn view(&self) -> Seq<char> {
        self.message@
    }
}

/// A result whose error is taken by its message.
pub open spec fn outcome_view<T>(outcome: Result<T, BackendError>) -> Result<T, Seq<char>> {
    match outcome {
        Ok(value) => Ok(value),
        Err(error) => Err(error@),
    }
}

/// One POST to make: `body`, as JSON, to `url`.
#[derive(Debug)]
pub struct Call {
    pub url: String,
    pub body: serde_json::Map<String, serde_json::Value>,
}

/// What a [`Call`] says.
pub struct CallView {
    pub url: Seq<char>,
    pub body: Map<Seq<char>, Json>,
}

impl View for Call {
    type V = CallView;

    open spec fn view(&self) -> CallView {
        CallView { url: self.url@, body: members(self.body) }
    }
}

/// What a [`Call`] came to: the status of the response, or why there is none.
pub open spec fn reply_view(reply: Result<u16, String>) -> Result<u16, Seq<char>> {
    match reply {
        Ok(code) => Ok(code),
        Err(cause) => Err(cause@),
    }
}

/// Where a per-principal budget is checked and debited, keyed on a descriptor
/// (`descriptor_key: descriptor_value`) resolved from identity.
///
/// Checking and debiting are one POST each. A backend says what to send and reads what came
/// back; whoever holds the backend makes the exchange in between.
pub trait QuotaBackend: std::fmt::Debug + Send + Sync {
    /// What is sent to learn whether the descriptor is within budget.
    spec fn check_call_spec(&self, key: Seq<char>, value: Seq<char>) -> CallView;

    /// What the reply to a check means.
    spec fn check_outcome_spec(&self, reply: Result<u16, Seq<char>>) -> Result<
        CheckOutcome,
        Seq<char>,
    >;

    /// What is sent to debit the descriptor.
    spec fn report_call_spec(&self, key: Seq<char>, value: Seq<char>, delta: nat) -> CallView;

    /// What the reply to a debit means.
    spec fn report_outcome_spec(&self, reply: Result<u16, Seq<char>>) -> Result<(), Seq<char>>;

    /// The call that asks whether the descriptor is within budget, charging nothing.
    fn check_call(&self, descriptor_key: &str, descriptor_value: &str) -> (call: Call)
        ensures
            call@ == self.check_call_spec(descriptor_key@, descriptor_value@),
    ;

    /// The verdict of a check that got `reply`. A [`BackendError`] when the call did not
    /// complete or its answer is unrecognizable.
    fn check_outcome(&self, reply: Result<u16, String>) -> (outcome: Result<
        CheckOutcome,
        BackendError,
    >)
        requires
            reply matches Ok(code) ==> is_status(code),
        ensures
            outcome_view(outcome) == self.check_outcome_spec(reply_view(reply)),
            reply is Err ==> outcome is Err,
    ;

    /// The call that debits `delta` against the descriptor, recording the spend.
    fn report_call(&self, descriptor_key: &str, descriptor_value: &str, delta: u64) -> (call: Call)
        ensures
            call@ == self.report_call_spec(descriptor_key@, descriptor_value@, delta as nat),
    ;

    /// Whether a debit that got `reply` was recorded. A [`BackendError`] when the call did
    /// not complete.
    fn report_outcome(&self, reply: Result<u16, String>) -> (outcome: Result<(), BackendError>)
        requires
            reply matches Ok(code) ==> is_status(code),
        ensures
            outcome_view(outcome) == self.report_outcome_spec(reply_view(reply)),
            reply is Err ==> outcome is Err,
    ;
}

} // verus!
