//! What the operations of a [`LimitadorClient`] do, and how they relate to one another, said
//! in the words and members that go over the wire.

use crate::backend::{
    outcome_view, reply_view, BackendError, Call, CheckOutcome, QuotaBackend,
};
use crate::client::{
    a_body_says_what_it_was_given, build_failure, descriptors_are_told_apart, status_received,
    trimmed_is_trimmed, LimitadorClient, LimitadorView,
};
use crate::json::{members, Json};
use crate::transport::{
    a_status_line_begins_with_the_code_in_decimal, error_shown, is_status, reply_shown,
    status_digits, status_reason,
};
use vstd::prelude::*;

verus! {

/// A check goes to `/check` under the client's endpoint. It says the client's namespace, the
/// descriptor whole, a delta of one, and nothing else.
pub proof fn a_check_asks_about_the_whole_descriptor(
    client: LimitadorClient,
    key: Seq<char>,
    value: Seq<char>,
)
    ensures
        ({
            let call = client.check_call_spec(key, value);
            &&& call.url == client@.base + "/check"@
            &&& call.body =~= map![
                "namespace"@ => Json::Text(client@.namespace),
                "values"@ => Json::Object(map![key => Json::Text(value)]),
                "delta"@ => Json::Number(1),
            ]
        }),
{
    a_body_says_what_it_was_given(client@.namespace, key, value, 1);
}

/// A report goes to `/report` under the client's endpoint. It says the client's namespace, the
/// descriptor whole, the delta whole, and nothing else.
pub proof fn a_report_debits_the_whole_delta(
    client: LimitadorClient,
    key: Seq<char>,
    value: Seq<char>,
    delta: nat,
)
    ensures
        ({
            let call = client.report_call_spec(key, value, delta);
            &&& call.url == client@.base + "/report"@
            &&& call.body =~= map![
                "namespace"@ => Json::Text(client@.namespace),
                "values"@ => Json::Object(map![key => Json::Text(value)]),
                "delta"@ => Json::Number(delta),
            ]
        }),
{
    a_body_says_what_it_was_given(client@.namespace, key, value, delta);
}

/// A check probes the counter that a report about the same descriptor debits, whatever the
/// delta, and no counter that a report about another descriptor debits.
pub proof fn a_check_probes_the_counter_that_a_report_debits(
    client: LimitadorClient,
    key: Seq<char>,
    value: Seq<char>,
    other_key: Seq<char>,
    other_value: Seq<char>,
    delta: nat,
)
    ensures
        ({
            let check = client.check_call_spec(key, value).body;
            let report = client.report_call_spec(other_key, other_value, delta).body;
            &&& check["namespace"@] == report["namespace"@]
            &&& check["values"@] == report["values"@] <==> key == other_key && value == other_value
        }),
{
    a_body_says_what_it_was_given(client@.namespace, key, value, 1);
    a_body_says_what_it_was_given(client@.namespace, other_key, other_value, delta);
    descriptors_are_told_apart(key, value, other_key, other_value);
}

/// What a call was asked for can be read back from it: two checks are one call only where they
/// are about one descriptor, and two reports only where they debit one descriptor by one delta.
pub proof fn a_call_tells_what_it_was_asked_for(
    client: LimitadorClient,
    key: Seq<char>,
    value: Seq<char>,
    delta: nat,
    other_key: Seq<char>,
    other_value: Seq<char>,
    other_delta: nat,
)
    ensures
        client.check_call_spec(key, value) == client.check_call_spec(other_key, other_value) <==> key
            == other_key && value == other_value,
        client.report_call_spec(key, value, delta) == client.report_call_spec(
            other_key,
            other_value,
            other_delta,
        ) <==> key == other_key && value == other_value && delta == other_delta,
        client.check_call_spec(key, value) != client.report_call_spec(
            other_key,
            other_value,
            other_delta,
        ),
{
    a_body_says_what_it_was_given(client@.namespace, key, value, 1);
    a_body_says_what_it_was_given(client@.namespace, other_key, other_value, 1);
    a_body_says_what_it_was_given(client@.namespace, key, value, delta);
    a_body_says_what_it_was_given(client@.namespace, other_key, other_value, other_delta);
    descriptors_are_told_apart(key, value, other_key, other_value);
    reveal_strlit("/check");
    reveal_strlit("/report");
    assert((client@.base + "/check"@).len() != (client@.base + "/report"@).len());
}

/// A check is within the limit on 200, over it on 429, and an error on every other status and
/// every failed call. The error says where the call went and what came of it.
pub proof fn a_check_is_a_verdict_on_two_statuses_alone(
    client: LimitadorClient,
    reply: Result<u16, Seq<char>>,
)
    ensures
        client.check_outcome_spec(reply) matches Ok(CheckOutcome::WithinLimit) <==> reply matches Ok(
            200,
        ),
        client.check_outcome_spec(reply) matches Ok(CheckOutcome::OverLimit) <==> reply matches Ok(
            429,
        ),
        reply matches Ok(code) ==> (code != 200 && code != 429 ==> client.check_outcome_spec(reply)
            == Err::<CheckOutcome, Seq<char>>(
            "Limitador "@ + "/check"@ + " returned unexpected status "@ + (status_digits(code)
                + " "@ + status_reason(code)),
        )),
        reply matches Err(cause) ==> client.check_outcome_spec(reply) == Err::<
            CheckOutcome,
            Seq<char>,
        >("Limitador POST "@ + (client@.base + "/check"@) + " failed: "@ + cause),
{
}

/// A debit is recorded on 200 alone. Every other status, 429 included, and every failed call is
/// an error, which says where the call went and what came of it.
pub proof fn a_debit_is_recorded_on_one_status_alone(
    client: LimitadorClient,
    reply: Result<u16, Seq<char>>,
)
    ensures
        client.report_outcome_spec(reply) is Ok <==> reply matches Ok(200),
        reply matches Ok(code) ==> (code != 200 ==> client.report_outcome_spec(reply) == Err::<
            (),
            Seq<char>,
        >(
            "Limitador "@ + "/report"@ + " returned unexpected status "@ + (status_digits(code)
                + " "@ + status_reason(code)),
        )),
        reply matches Err(cause) ==> client.report_outcome_spec(reply) == Err::<(), Seq<char>>(
            "Limitador POST "@ + (client@.base + "/report"@) + " failed: "@ + cause,
        ),
{
}

/// Two replies that a check does not take for a verdict are told apart by its error, as far as
/// they can be: two statuses always, and two failures where their causes differ.
pub proof fn errors_tell_replies_apart(
    client: LimitadorClient,
    code: u16,
    other_code: u16,
    cause: Seq<char>,
    other_cause: Seq<char>,
)
    requires
        is_status(code),
        is_status(other_code),
    ensures
        client.check_outcome_spec(Ok(code)) == client.check_outcome_spec(Ok(other_code)) <==> code
            == other_code,
        client.report_outcome_spec(Ok(code)) == client.report_outcome_spec(Ok(other_code)) <==> code
            == other_code,
        client.check_outcome_spec(Err(cause)) == client.check_outcome_spec(Err(other_cause))
            <==> cause == other_cause,
        client.report_outcome_spec(Err(cause)) == client.report_outcome_spec(Err(other_cause))
            <==> cause == other_cause,
{
    a_status_line_begins_with_the_code_in_decimal(code);
    a_status_line_begins_with_the_code_in_decimal(other_code);
    let line = status_digits(code) + " "@ + status_reason(code);
    let other_line = status_digits(other_code) + " "@ + status_reason(other_code);
    let check = "Limitador "@ + "/check"@ + " returned unexpected status "@;
    let report = "Limitador "@ + "/report"@ + " returned unexpected status "@;
    assert((check + line).skip(check.len() as int) =~= line);
    assert((check + other_line).skip(check.len() as int) =~= other_line);
    assert((report + line).skip(report.len() as int) =~= line);
    assert((report + other_line).skip(report.len() as int) =~= other_line);
    let check_post = "Limitador POST "@ + (client@.base + "/check"@) + " failed: "@;
    let report_post = "Limitador POST "@ + (client@.base + "/report"@) + " failed: "@;
    assert((check_post + cause).skip(check_post.len() as int) =~= cause);
    assert((check_post + other_cause).skip(check_post.len() as int) =~= other_cause);
    assert((report_post + cause).skip(report_post.len() as int) =~= cause);
    assert((report_post + other_cause).skip(report_post.len() as int) =~= other_cause);
}

/// A client is for the endpoint that it was built for, without the slashes that it ends in and
/// otherwise whole, and for the namespace that it was built for, as it stands.
pub proof fn a_client_is_for_its_endpoint_and_its_namespace(
    endpoint: Seq<char>,
    namespace: Seq<char>,
)
    ensures
        ({
            let client = LimitadorView::at(endpoint, namespace);
            &&& client.namespace == namespace
            &&& client.base.is_prefix_of(endpoint)
            &&& client.base.len() == 0 || client.base.last() != '/'
            &&& forall|i: int| client.base.len() <= i < endpoint.len() ==> endpoint[i] == '/'
        }),
{
    trimmed_is_trimmed(endpoint);
}

/// Clients built for two namespaces meter apart: no call of the one says what a call of the
/// other says of its namespace. Clients built for one namespace say the same of it, wherever
/// they call.
pub proof fn clients_of_two_namespaces_meter_apart(
    client: LimitadorClient,
    endpoint: Seq<char>,
    namespace: Seq<char>,
    other: LimitadorClient,
    other_endpoint: Seq<char>,
    other_namespace: Seq<char>,
    key: Seq<char>,
    value: Seq<char>,
    delta: nat,
)
    requires
        client@ == LimitadorView::at(endpoint, namespace),
        other@ == LimitadorView::at(other_endpoint, other_namespace),
    ensures
        client.check_call_spec(key, value).body["namespace"@] == other.check_call_spec(
            key,
            value,
        ).body["namespace"@] <==> namespace == other_namespace,
        client.report_call_spec(key, value, delta).body["namespace"@] == other.check_call_spec(
            key,
            value,
        ).body["namespace"@] <==> namespace == other_namespace,
        client.report_call_spec(key, value, delta).body["namespace"@] == other.report_call_spec(
            key,
            value,
            delta,
        ).body["namespace"@] <==> namespace == other_namespace,
{
    a_body_says_what_it_was_given(namespace, key, value, 1);
    a_body_says_what_it_was_given(other_namespace, key, value, 1);
    a_body_says_what_it_was_given(namespace, key, value, delta);
    a_body_says_what_it_was_given(other_namespace, key, value, delta);
}

/// What a client that was built for an endpoint and a namespace sends, from the one end to the
/// other: an endpoint that ends in no slash, with any number of slashes after it, gives the
/// endpoint itself with the path, and the namespace is said as it was given.
pub proof fn a_client_sends_what_it_was_built_for(
    client: LimitadorClient,
    endpoint: Seq<char>,
    slashes: Seq<char>,
    namespace: Seq<char>,
    key: Seq<char>,
    value: Seq<char>,
    delta: nat,
)
    requires
        endpoint.len() == 0 || endpoint.last() != '/',
        forall|i: int| 0 <= i < slashes.len() ==> slashes[i] == '/',
        client@ == LimitadorView::at(endpoint + slashes, namespace),
    ensures
        client.check_call_spec(key, value).url == endpoint + "/check"@,
        client.check_call_spec(key, value).body["namespace"@] == Json::Text(namespace),
        client.report_call_spec(key, value, delta).url == endpoint + "/report"@,
        client.report_call_spec(key, value, delta).body["namespace"@] == Json::Text(namespace),
{
    a_body_says_what_it_was_given(namespace, key, value, 1);
    a_body_says_what_it_was_given(namespace, key, value, delta);
    let given = endpoint + slashes;
    trimmed_is_trimmed(given);
    let base = client@.base;
    if base.len() < endpoint.len() {
        assert(given[endpoint.len() - 1] == '/');
    }
    if base.len() > endpoint.len() {
        assert(base.last() == given[base.len() - 1]);
        assert(given[base.len() - 1] == slashes[base.len() - 1 - endpoint.len()]);
    }
    assert(base =~= endpoint);
}

/// A client that cannot be built says so, and why, whole.
pub proof fn a_build_failure_says_why(cause: Seq<char>)
    ensures
        build_failure(cause) == "Limitador HTTP client build failed: "@ + cause,
{
}

/// A reply is a status as it came, whatever status it is, or the error as it is shown, whole;
/// what is received of it is that status, or an error that says the URL and the cause whole.
pub proof fn nothing_is_lost_on_the_way_back(url: Seq<char>, sent: Result<u16, reqwest::Error>)
    ensures
        sent matches Ok(code) ==> {
            &&& reply_shown(sent) == Ok::<u16, Seq<char>>(code)
            &&& status_received(url, Ok(code)) == Ok::<u16, Seq<char>>(code)
        },
        sent matches Err(error) ==> {
            &&& reply_shown(sent) == Err::<u16, Seq<char>>(error_shown(error))
            &&& status_received(url, Err(error_shown(error))) == Err::<u16, Seq<char>>(
                "Limitador POST "@ + url + " failed: "@ + error_shown(error),
            )
        },
{
}

/// The contracts take a call, a reply and an outcome whole: a call by its URL and every member
/// of its body, a reply by its status or its whole cause, an outcome by its value or its whole
/// message.
pub proof fn contracts_speak_of_the_whole(
    call: Call,
    code: u16,
    cause: String,
    verdict: CheckOutcome,
    error: BackendError,
)
    ensures
        call@.url == call.url@,
        call@.body == members(call.body),
        reply_view(Ok(code)) == Ok::<u16, Seq<char>>(code),
        reply_view(Err(cause)) == Err::<u16, Seq<char>>(cause@),
        outcome_view(Ok::<CheckOutcome, BackendError>(verdict)) == Ok::<CheckOutcome, Seq<char>>(
            verdict,
        ),
        outcome_view(Err::<CheckOutcome, BackendError>(error)) == Err::<CheckOutcome, Seq<char>>(
            error.message@,
        ),
        outcome_view(Ok::<(), BackendError>(())) == Ok::<(), Seq<char>>(()),
        outcome_view(Err::<(), BackendError>(error)) == Err::<(), Seq<char>>(error.message@),
{
}

} // verus!
