//! What checks and debits amount to at a service that counts.
//!
//! The service modelled here keeps one counter for each descriptor of each namespace, and
//! one limit. `/check` answers 429 where the delta would carry the counter past the limit and
//! 200 where it would not, and counts nothing. `/report` adds the delta, whatever the counter
//! is, and answers 200; no counter is ever reset. The laws say what a client's calls come to there, in any order.

use crate::backend::{CallView, CheckOutcome, QuotaBackend};
use crate::client::{
    a_body_says_what_it_was_given, descriptor, descriptors_are_told_apart, LimitadorClient,
    LimitadorView,
};
use crate::json::Json;
use vstd::prelude::*;

verus! {

/// What a counter is kept for: a namespace and a descriptor in it.
pub struct Meter {
    pub namespace: Json,
    pub values: Json,
}

/// A service that counts.
pub struct Service {
    /// Its address.
    pub base: Seq<char>,
    /// What each counter may reach.
    pub limit: nat,
    /// The counters that were ever debited.
    pub counters: Map<Meter, nat>,
}

/// The counter that a call is about.
pub open spec fn meter_of(call: CallView) -> Meter {
    Meter { namespace: call.body["namespace"@], values: call.body["values"@] }
}

/// How much a call is about.
pub open spec fn delta_of(call: CallView) -> nat {
    match call.body["delta"@] {
        Json::Number(delta) => delta,
        _ => 0,
    }
}

impl Service {
    /// What was spent on a meter.
    pub open spec fn spent(self, meter: Meter) -> nat {
        if self.counters.contains_key(meter) {
            self.counters[meter]
        } else {
            0
        }
    }

    /// What the service is after a call, and the status that it answers.
    pub open spec fn answer(self, call: CallView) -> (Service, u16) {
        let spent = self.spent(meter_of(call));
        if call.url == self.base + "/check"@ {
            (self, if spent + delta_of(call) > self.limit {
                429
            } else {
                200
            })
        } else if call.url == self.base + "/report"@ {
            let counters = self.counters.insert(meter_of(call), spent + delta_of(call));
            (Service { counters, ..self }, 200)
        } else {
            (self, 404)
        }
    }
}

/// One thing that a client does about a descriptor.
pub enum Step {
    Check { key: Seq<char>, value: Seq<char> },
    Report { key: Seq<char>, value: Seq<char>, delta: nat },
}

/// The meter of a descriptor in a client's namespace.
pub open spec fn meter(client: LimitadorView, key: Seq<char>, value: Seq<char>) -> Meter {
    Meter { namespace: Json::Text(client.namespace), values: descriptor(key, value) }
}

/// The call that a client makes for a step.
pub open spec fn step_call(client: LimitadorView, step: Step) -> CallView {
    match step {
        Step::Check { key, value } => client.check_call(key, value),
        Step::Report { key, value, delta } => client.report_call(key, value, delta),
    }
}

/// What the service is after a client's steps, one after the other.
pub open spec fn after(service: Service, client: LimitadorView, steps: Seq<Step>) -> Service
    decreases steps.len(),
{
    if steps.len() == 0 {
        service
    } else {
        after(service, client, steps.drop_last()).answer(step_call(client, steps.last())).0
    }
}

/// What the steps debit against a descriptor, all told.
pub open spec fn debited(steps: Seq<Step>, key: Seq<char>, value: Seq<char>) -> nat
    decreases steps.len(),
{
    if steps.len() == 0 {
        0
    } else {
        let before = debited(steps.drop_last(), key, value);
        match steps.last() {
            Step::Report { key: k, value: v, delta } if k == key && v == value => before + delta,
            _ => before,
        }
    }
}

/// The verdict of a check that a client makes now.
pub open spec fn verdict(
    service: Service,
    client: LimitadorView,
    key: Seq<char>,
    value: Seq<char>,
) -> Result<CheckOutcome, Seq<char>> {
    client.check_outcome(Ok(service.answer(client.check_call(key, value)).1))
}

/// A check charges nothing: it leaves the service as it was. It is over the limit exactly
/// when what was spent on the descriptor has reached the limit.
pub proof fn a_check_denies_once_the_counter_reaches_the_limit(
    service: Service,
    client: LimitadorView,
    key: Seq<char>,
    value: Seq<char>,
)
    requires
        service.base == client.base,
    ensures
        service.answer(client.check_call(key, value)).0 == service,
        verdict(service, client, key, value) == Ok::<_, Seq<char>>(
            if service.spent(meter(client, key, value)) >= service.limit {
                CheckOutcome::OverLimit
            } else {
                CheckOutcome::WithinLimit
            },
        ),
{
    a_body_says_what_it_was_given(client.namespace, key, value, 1);
}

/// A report is recorded whatever was spent before: it succeeds, adds its delta to what was
/// spent on its descriptor, and changes neither what was spent on any other meter nor the
/// limit.
pub proof fn a_report_debits_its_delta(
    service: Service,
    client: LimitadorView,
    key: Seq<char>,
    value: Seq<char>,
    delta: nat,
)
    requires
        service.base == client.base,
    ensures
        ({
            let (next, code) = service.answer(client.report_call(key, value, delta));
            let charged = meter(client, key, value);
            &&& client.report_outcome(Ok(code)) is Ok
            &&& next.spent(charged) == service.spent(charged) + delta
            &&& forall|other: Meter|
                other != charged ==> #[trigger] next.spent(other) == service.spent(other)
            &&& next.limit == service.limit
            &&& next.base == service.base
        }),
{
    a_body_says_what_it_was_given(client.namespace, key, value, delta);
    reveal_strlit("/check");
    reveal_strlit("/report");
    assert(client.report_url().len() != (client.base + "/check"@).len());
}

/// What was spent on a descriptor is what was debited against it: any number of checks and
/// reports, about any descriptors and in any order, adds up to the debits against the one.
pub proof fn debits_add_up(
    service: Service,
    client: LimitadorView,
    steps: Seq<Step>,
    key: Seq<char>,
    value: Seq<char>,
)
    requires
        service.base == client.base,
    ensures
        after(service, client, steps).spent(meter(client, key, value)) == service.spent(
            meter(client, key, value),
        ) + debited(steps, key, value),
        after(service, client, steps).limit == service.limit,
        after(service, client, steps).base == service.base,
    decreases steps.len(),
{
    if steps.len() > 0 {
        let before = after(service, client, steps.drop_last());
        debits_add_up(service, client, steps.drop_last(), key, value);
        match steps.last() {
            Step::Check { key: k, value: v } => {
                a_check_denies_once_the_counter_reaches_the_limit(before, client, k, v);
            },
            Step::Report { key: k, value: v, delta } => {
                a_report_debits_its_delta(before, client, k, v, delta);
                descriptors_are_told_apart(key, value, k, v);
            },
        }
    }
}

/// A principal is denied once its cumulative debits reach the budget, and not before: after
/// any steps, a check is over the limit exactly when what was spent at first and what was
/// debited since have reached it.
pub proof fn a_principal_is_denied_once_its_debits_reach_the_budget(
    service: Service,
    client: LimitadorView,
    steps: Seq<Step>,
    key: Seq<char>,
    value: Seq<char>,
)
    requires
        service.base == client.base,
    ensures
        verdict(after(service, client, steps), client, key, value) == Ok::<_, Seq<char>>(
            if service.spent(meter(client, key, value)) + debited(steps, key, value)
                >= service.limit {
                CheckOutcome::OverLimit
            } else {
                CheckOutcome::WithinLimit
            },
        ),
{
    debits_add_up(service, client, steps, key, value);
    a_check_denies_once_the_counter_reaches_the_limit(
        after(service, client, steps),
        client,
        key,
        value,
    );
}

/// What the service is after the calls of a client, one for each step.
pub open spec fn after_calls(service: Service, client: LimitadorClient, steps: Seq<Step>) -> Service
    decreases steps.len(),
{
    if steps.len() == 0 {
        service
    } else {
        let call = match steps.last() {
            Step::Check { key, value } => client.check_call_spec(key, value),
            Step::Report { key, value, delta } => client.report_call_spec(key, value, delta),
        };
        after_calls(service, client, steps.drop_last()).answer(call).0
    }
}

/// What a client spends is what it was told to debit: two reports about one descriptor, with a
/// check before, between and after, raise what was spent on it by the one delta and the other,
/// both are recorded, and nothing else is charged.
pub proof fn two_debits_are_charged_in_full(
    service: Service,
    client: LimitadorClient,
    key: Seq<char>,
    value: Seq<char>,
    first: nat,
    second: nat,
)
    requires
        service.base == client@.base,
    ensures
        ({
            let check = client.check_call_spec(key, value);
            let (one, one_code) = service.answer(check).0.answer(
                client.report_call_spec(key, value, first),
            );
            let (two, two_code) = one.answer(check).0.answer(
                client.report_call_spec(key, value, second),
            );
            let last = two.answer(check).0;
            let charged = Meter {
                namespace: Json::Text(client@.namespace),
                values: Json::Object(map![key => Json::Text(value)]),
            };
            &&& client.report_outcome_spec(Ok(one_code)) is Ok
            &&& client.report_outcome_spec(Ok(two_code)) is Ok
            &&& last.spent(charged) == service.spent(charged) + first + second
            &&& forall|other: Meter|
                other != charged ==> #[trigger] last.spent(other) == service.spent(other)
        }),
{
    a_body_says_what_it_was_given(client@.namespace, key, value, 1);
    let start = service.answer(client.check_call_spec(key, value)).0;
    a_check_denies_once_the_counter_reaches_the_limit(service, client@, key, value);
    a_report_debits_its_delta(start, client@, key, value, first);
    let one = start.answer(client.report_call_spec(key, value, first)).0;
    a_check_denies_once_the_counter_reaches_the_limit(one, client@, key, value);
    a_report_debits_its_delta(one, client@, key, value, second);
    let two = one.answer(client.report_call_spec(key, value, second)).0;
    a_check_denies_once_the_counter_reaches_the_limit(two, client@, key, value);
}

/// The calls of a client come to what its steps come to.
proof fn calls_are_steps(service: Service, client: LimitadorClient, steps: Seq<Step>)
    ensures
        after_calls(service, client, steps) == after(service, client@, steps),
    decreases steps.len(),
{
    if steps.len() > 0 {
        calls_are_steps(service, client, steps.drop_last());
    }
}

/// A client denies a principal once the debits that it was told to make reach the budget, and
/// not before: whatever was checked and debited, about any descriptors and in any order, what
/// the client reads off the answer to its next check is over the limit exactly when what was
/// spent at first and what was debited since have reached the limit, and else within it.
pub proof fn a_client_denies_once_its_debits_reach_the_budget(
    service: Service,
    client: LimitadorClient,
    steps: Seq<Step>,
    key: Seq<char>,
    value: Seq<char>,
)
    requires
        service.base == client@.base,
    ensures
        ({
            let charged = Meter {
                namespace: Json::Text(client@.namespace),
                values: Json::Object(map![key => Json::Text(value)]),
            };
            let code = after_calls(service, client, steps).answer(
                client.check_call_spec(key, value),
            ).1;
            client.check_outcome_spec(Ok(code)) == Ok::<CheckOutcome, Seq<char>>(
                if service.spent(charged) + debited(steps, key, value) >= service.limit {
                    CheckOutcome::OverLimit
                } else {
                    CheckOutcome::WithinLimit
                },
            )
        }),
{
    a_body_says_what_it_was_given(client@.namespace, key, value, 1);
    calls_are_steps(service, client, steps);
    a_principal_is_denied_once_its_debits_reach_the_budget(service, client@, steps, key, value);
}

} // verus!
