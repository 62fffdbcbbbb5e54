//! `LimitadorClient`, a quota backend over Limitador's HTTP API. A check probes
//! `{endpoint}/check` with a delta of one (200 within limit, 429 over), and a report debits
//! via `{endpoint}/report`. `/check_and_report` is avoided: it skips the increment on a 429,
//! freezing the counter at the limit.

use crate::backend::{
    outcome_view, reply_view, BackendError, Call, CallView, CheckOutcome, QuotaBackend,
};
use crate::json::{empty_object, insert_member, members, no_members, Json, Member};
use crate::transport::{
    build_http, error_shown, error_text, is_status, reply_shown, request_timeout, status_digits,
    status_line, status_text,
};
use std::time::Duration;
use vstd::prelude::*;

verus! {

/// The check probes with a delta of one, so it denies once the counter reaches the limit. It
/// charges nothing. The debit happens in the report.
pub const CHECK_PROBE_DELTA: u64 = 1;

/// `text` without the slashes that it ends in.
pub open spec fn trimmed(text: Seq<char>) -> Seq<char>
    decreases text.len(),
{
    if text.len() > 0 && text.last() == '/' {
        trimmed(text.drop_last())
    } else {
        text
    }
}

/// The values of a call: the one descriptor that it is about.
pub open spec fn descriptor(key: Seq<char>, value: Seq<char>) -> Json {
    Json::Object(no_members().insert(key, Json::Text(value)))
}

/// The body of a call.
pub open spec fn body(namespace: Seq<char>, key: Seq<char>, value: Seq<char>, delta: nat) -> Map<
    Seq<char>,
    Json,
> {
    no_members().insert("namespace"@, Json::Text(namespace)).insert(
        "values"@,
        descriptor(key, value),
    ).insert("delta"@, Json::Number(delta))
}

/// What is said of an HTTP client that could not be built.
pub open spec fn build_failure(cause: Seq<char>) -> Seq<char> {
    "Limitador HTTP client build failed: "@ + cause
}

/// What is said of a call that got no response.
pub open spec fn transport_failure(url: Seq<char>, cause: Seq<char>) -> Seq<char> {
    "Limitador POST "@ + url + " failed: "@ + cause
}

/// What the reply to a POST to `url` is: a status is handed on, and a failure is named.
pub open spec fn status_received(url: Seq<char>, reply: Result<u16, Seq<char>>) -> Result<
    u16,
    Seq<char>,
> {
    match reply {
        Ok(code) => Ok(code),
        Err(cause) => Err(transport_failure(url, cause)),
    }
}

/// What is said of a response that `path` does not give.
pub open spec fn unexpected_status(path: Seq<char>, code: u16) -> Seq<char> {
    "Limitador "@ + path + " returned unexpected status "@ + status_line(code)
}

/// What a client is: the endpoint that it calls, without trailing slashes, and the namespace
/// that it meters in.
pub struct LimitadorView {
    pub base: Seq<char>,
    pub namespace: Seq<char>,
}

impl LimitadorView {
    /// The client for an endpoint as it is configured.
    pub open spec fn at(endpoint: Seq<char>, namespace: Seq<char>) -> LimitadorView {
        LimitadorView { base: trimmed(endpoint), namespace }
    }

    pub open spec fn check_url(self) -> Seq<char> {
        self.base + "/check"@
    }

    pub open spec fn report_url(self) -> Seq<char> {
        self.base + "/report"@
    }

    /// The probe: a delta of one.
    pub open spec fn check_call(self, key: Seq<char>, value: Seq<char>) -> CallView {
        CallView {
            url: self.check_url(),
            body: body(self.namespace, key, value, CHECK_PROBE_DELTA as nat),
        }
    }

    /// The debit.
    pub open spec fn report_call(self, key: Seq<char>, value: Seq<char>, delta: nat) -> CallView {
        CallView { url: self.report_url(), body: body(self.namespace, key, value, delta) }
    }

    /// 200 is within the limit and 429 over it. Anything else is an error.
    pub open spec fn check_outcome(self, reply: Result<u16, Seq<char>>) -> Result<
        CheckOutcome,
        Seq<char>,
    > {
        match reply {
            Err(cause) => Err(transport_failure(self.check_url(), cause)),
            Ok(code) => if code == 200 {
                Ok(CheckOutcome::WithinLimit)
            } else if code == 429 {
                Ok(CheckOutcome::OverLimit)
            } else {
                Err(unexpected_status("/check"@, code))
            },
        }
    }

    /// 200 is a recorded debit. Anything else is an error.
    pub open spec fn report_outcome(self, reply: Result<u16, Seq<char>>) -> Result<(), Seq<char>> {
        match reply {
            Err(cause) => Err(transport_failure(self.report_url(), cause)),
            Ok(code) => if code == 200 {
                Ok(())
            } else {
                Err(unexpected_status("/report"@, code))
            },
        }
    }
}

/// `endpoint` without its trailing slashes.
fn trim_slashes<'a>(endpoint: &'a str) -> (base: &'a str)
    ensures
        base@ == trimmed(endpoint@),
{
    let mut end: usize = endpoint.unicode_len();
    assert(endpoint@.take(end as int) == endpoint@);
    while end > 0 && endpoint.get_char(end - 1) == '/'
        invariant
            end <= endpoint@.len(),
            trimmed(endpoint@.take(end as int)) == trimmed(endpoint@),
        ensures
            end == 0 || endpoint@[end - 1] != '/',
        decreases end,
    {
        assert(endpoint@.take(end as int).drop_last() == endpoint@.take(end - 1));
        end = end - 1;
    }
    endpoint.substring_char(0, end)
}

/// The JSON body of a call.
fn call_body(namespace: &str, descriptor_key: &str, descriptor_value: &str, delta: u64) -> (object:
    serde_json::Map<String, serde_json::Value>)
    ensures
        members(object) == body(
            namespace@,
            descriptor_key@,
            descriptor_value@,
            delta as nat,
        ),
{
    let mut values = empty_object();
    insert_member(&mut values, descriptor_key, Member::Text(descriptor_value.to_owned()));
    let mut object = empty_object();
    insert_member(&mut object, "namespace", Member::Text(namespace.to_owned()));
    insert_member(&mut object, "values", Member::Object(values));
    insert_member(&mut object, "delta", Member::Number(delta));
    object
}

/// The status of the response to a POST to `url`, whatever the status is, or the error that
/// the lack of a response is.
pub fn received(url: &str, reply: Result<u16, String>) -> (status: Result<u16, BackendError>)
    ensures
        outcome_view(status) == status_received(url@, reply_view(reply)),
        status is Err <==> reply is Err,
        reply matches Ok(code) ==> status == Ok::<u16, BackendError>(code),
        reply matches Err(cause) ==> (status matches Err(error) && error.message@
            == "Limitador POST "@ + url@ + " failed: "@ + cause@),
{
    match reply {
        Ok(code) => Ok(code),
        Err(cause) => {
            let mut message = "Limitador POST ".to_owned();
            message.append(url);
            message.append(" failed: ");
            message.append(cause.as_str());
            Err(BackendError { message })
        },
    }
}

/// The error that an unexpected status is.
fn unexpected(path: &str, code: u16) -> (error: BackendError)
    requires
        is_status(code),
    ensures
        error@ == unexpected_status(path@, code),
{
    let mut message = "Limitador ".to_owned();
    message.append(path);
    message.append(" returned unexpected status ");
    message.append(status_text(code).as_str());
    BackendError { message }
}

/// HTTP client bound to one Limitador endpoint and namespace. Holds one pooled
/// `reqwest::Client`, built at construction.
#[derive(Debug)]
pub struct LimitadorClient {
    http: reqwest::Client,
    namespace: String,
    check_url: String,
    report_url: String,
}

impl View for LimitadorClient {
    type V = LimitadorView;

    closed spec fn view(&self) -> LimitadorView {
        LimitadorView {
            base: self.check_url@.take(self.check_url@.len() - "/check"@.len()),
            namespace: self.namespace@,
        }
    }
}

impl LimitadorClient {
    /// Both URLs are paths under one endpoint, which ends in no slash.
    #[verifier::type_invariant]
    spec fn under_one_endpoint(self) -> bool {
        &&& self.check_url@ == self@.check_url()
        &&& self.report_url@ == self@.report_url()
        &&& trimmed(self@.base) == self@.base
    }

    /// The HTTP client that its calls are made with.
    pub closed spec fn transport(self) -> reqwest::Client {
        self.http
    }

    /// Build the client for `endpoint`/`namespace` with a per-call `timeout`. Trailing
    /// slashes on `endpoint` are trimmed. A message when the `reqwest::Client` cannot be
    /// built, which is the machine's to decide.
    pub fn new(endpoint: &str, namespace: &str, timeout: Duration) -> (client: Result<Self, String>)
        ensures
            match client {
                Ok(client) => {
                    &&& client@ == LimitadorView::at(endpoint@, namespace@)
                    &&& request_timeout(client.transport()) == Some(timeout)
                    &&& client@.namespace == namespace@
                    &&& client@.base.is_prefix_of(endpoint@)
                    &&& client@.base.len() == 0 || client@.base.last() != '/'
                    &&& forall|i: int|
                        client@.base.len() <= i < endpoint@.len() ==> endpoint@[i] == '/'
                },
                Err(message) => exists|error: reqwest::Error|
                    {
                        &&& message@ == build_failure(#[trigger] error_shown(error))
                        &&& message@ == "Limitador HTTP client build failed: "@ + error_shown(
                            error,
                        )
                    },
            },
    {
        let built = match build_http(timeout) {
            Ok(http) => Ok(http),
            Err(error) => Err(error_text(&error)),
        };
        Self::from_build(built, endpoint, namespace)
    }

    /// The client around an HTTP client, or the message for the cause that there is none.
    pub fn from_build(
        built: Result<reqwest::Client, String>,
        endpoint: &str,
        namespace: &str,
    ) -> (client: Result<Self, String>)
        ensures
            match built {
                Ok(http) => {
                    &&& client matches Ok(client)
                    &&& client@ == LimitadorView::at(endpoint@, namespace@)
                    &&& client.transport() == http
                    &&& client@.namespace == namespace@
                    &&& client@.base.is_prefix_of(endpoint@)
                    &&& client@.base.len() == 0 || client@.base.last() != '/'
                    &&& forall|i: int|
                        client@.base.len() <= i < endpoint@.len() ==> endpoint@[i] == '/'
                },
                Err(cause) => {
                    &&& client matches Err(message)
                    &&& message@ == build_failure(cause@)
                    &&& message@ == "Limitador HTTP client build failed: "@ + cause@
                },
            },
    {
        let http = match built {
            Ok(http) => http,
            Err(cause) => {
                let mut message = "Limitador HTTP client build failed: ".to_owned();
                message.append(cause.as_str());
                return Err(message);
            },
        };
        let base = trim_slashes(endpoint);
        let mut check_url = base.to_owned();
        check_url.append("/check");
        let mut report_url = base.to_owned();
        report_url.append("/report");
        proof {
            trimmed_is_trimmed(endpoint@);
        }
        assert(check_url@.take(check_url@.len() - "/check"@.len()) == base@);
        Ok(LimitadorClient { http, namespace: namespace.to_owned(), check_url, report_url })
    }

    /// The HTTP client to make calls with.
    pub fn http(&self) -> (http: &reqwest::Client)
        ensures
            *http == self.transport(),
    {
        &self.http
    }
}

impl QuotaBackend for LimitadorClient {
    open spec fn check_call_spec(&self, key: Seq<char>, value: Seq<char>) -> CallView {
        self@.check_call(key, value)
    }

    open spec fn check_outcome_spec(&self, reply: Result<u16, Seq<char>>) -> Result<
        CheckOutcome,
        Seq<char>,
    > {
        self@.check_outcome(reply)
    }

    open spec fn report_call_spec(&self, key: Seq<char>, value: Seq<char>, delta: nat) -> CallView {
        self@.report_call(key, value, delta)
    }

    open spec fn report_outcome_spec(&self, reply: Result<u16, Seq<char>>) -> Result<(), Seq<char>> {
        self@.report_outcome(reply)
    }

    fn check_call(&self, descriptor_key: &str, descriptor_value: &str) -> (call: Call)
        ensures
            call.url@ == self@.base + "/check"@,
            members(call.body).dom() == set!["namespace"@, "values"@, "delta"@],
            members(call.body)["namespace"@] == Json::Text(self@.namespace),
            members(call.body)["values"@] == Json::Object(
                map![descriptor_key@ => Json::Text(descriptor_value@)],
            ),
            members(call.body)["delta"@] == Json::Number(1),
    {
        proof {
            use_type_invariant(self);
            a_body_says_what_it_was_given(
                self@.namespace,
                descriptor_key@,
                descriptor_value@,
                CHECK_PROBE_DELTA as nat,
            );
        }
        Call {
            url: self.check_url.clone(),
            body: call_body(
                self.namespace.as_str(),
                descriptor_key,
                descriptor_value,
                CHECK_PROBE_DELTA,
            ),
        }
    }

    fn check_outcome(&self, reply: Result<u16, String>) -> (outcome: Result<
        CheckOutcome,
        BackendError,
    >)
        ensures
            outcome matches Ok(CheckOutcome::WithinLimit) <==> reply matches Ok(200),
            outcome matches Ok(CheckOutcome::OverLimit) <==> reply matches Ok(429),
            reply matches Ok(code) ==> (outcome matches Err(error) ==> error.message@
                == "Limitador "@ + "/check"@ + " returned unexpected status "@ + status_line(code)),
            reply matches Err(cause) ==> (outcome matches Err(error) && error.message@
                == "Limitador POST "@ + (self@.base + "/check"@) + " failed: "@ + cause@),
    {
        proof {
            use_type_invariant(self);
        }
        let status: u16 = match received(self.check_url.as_str(), reply) {
            Ok(code) => code,
            Err(error) => return Err(error),
        };
        match status {
            200 => Ok(CheckOutcome::WithinLimit),
            429 => Ok(CheckOutcome::OverLimit),
            other => Err(unexpected("/check", other)),
        }
    }

    fn report_call(&self, descriptor_key: &str, descriptor_value: &str, delta: u64) -> (call: Call)
        ensures
            call.url@ == self@.base + "/report"@,
            members(call.body).dom() == set!["namespace"@, "values"@, "delta"@],
            members(call.body)["namespace"@] == Json::Text(self@.namespace),
            members(call.body)["values"@] == Json::Object(
                map![descriptor_key@ => Json::Text(descriptor_value@)],
            ),
            members(call.body)["delta"@] == Json::Number(delta as nat),
    {
        proof {
            use_type_invariant(self);
            a_body_says_what_it_was_given(
                self@.namespace,
                descriptor_key@,
                descriptor_value@,
                delta as nat,
            );
        }
        Call {
            url: self.report_url.clone(),
            body: call_body(self.namespace.as_str(), descriptor_key, descriptor_value, delta),
        }
    }

    fn report_outcome(&self, reply: Result<u16, String>) -> (outcome: Result<(), BackendError>)
        ensures
            outcome is Ok <==> reply matches Ok(200),
            reply matches Ok(code) ==> (outcome matches Err(error) ==> error.message@
                == "Limitador "@ + "/report"@ + " returned unexpected status "@ + status_line(
                code,
            )),
            reply matches Err(cause) ==> (outcome matches Err(error) && error.message@
                == "Limitador POST "@ + (self@.base + "/report"@) + " failed: "@ + cause@),
    {
        proof {
            use_type_invariant(self);
        }
        let status: u16 = match received(self.report_url.as_str(), reply) {
            Ok(code) => code,
            Err(error) => return Err(error),
        };
        if status == 200 {
            return Ok(());
        }
        Err(unexpected("/report", status))
    }
}

/// Trimming leaves no trailing slash, so that trimming again changes nothing, and keeps what
/// comes before the slashes.
pub proof fn trimmed_is_trimmed(text: Seq<char>)
    ensures
        trimmed(text).len() == 0 || trimmed(text).last() != '/',
        trimmed(trimmed(text)) == trimmed(text),
        trimmed(text).is_prefix_of(text),
        forall|i: int| trimmed(text).len() <= i < text.len() ==> text[i] == '/',
    decreases text.len(),
{
    if text.len() > 0 && text.last() == '/' {
        trimmed_is_trimmed(text.drop_last());
        assert forall|i: int| trimmed(text).len() <= i < text.len() implies text[i] == '/' by {
            if i < text.len() - 1 {
                assert(text.drop_last()[i] == '/');
            }
        }
    }
}

/// Whether an endpoint is configured with a trailing slash makes no difference to the client.
pub proof fn a_trailing_slash_makes_no_difference(endpoint: Seq<char>, namespace: Seq<char>)
    ensures
        LimitadorView::at(endpoint.push('/'), namespace) == LimitadorView::at(endpoint, namespace),
{
    assert(endpoint.push('/').drop_last() == endpoint);
}

/// A check and a report about one descriptor differ in their path and their delta alone: the
/// body of a check is that of a debit of one.
pub proof fn a_check_is_the_probe_of_a_debit_of_one(
    client: LimitadorView,
    key: Seq<char>,
    value: Seq<char>,
)
    ensures
        client.check_call(key, value).body == client.report_call(key, value, 1).body,
        client.check_call(key, value).url != client.report_call(key, value, 1).url,
{
    reveal_strlit("/check");
    reveal_strlit("/report");
    assert(client.check_url().len() != client.report_url().len());
}

/// A call names its namespace, its descriptor and its delta, each as it was given, and
/// nothing else.
pub proof fn a_body_says_what_it_was_given(
    namespace: Seq<char>,
    key: Seq<char>,
    value: Seq<char>,
    delta: nat,
)
    ensures
        body(namespace, key, value, delta).dom() == set!["namespace"@, "values"@, "delta"@],
        body(namespace, key, value, delta)["namespace"@] == Json::Text(namespace),
        body(namespace, key, value, delta)["values"@] == descriptor(key, value),
        descriptor(key, value) == Json::Object(map![key => Json::Text(value)]),
        body(namespace, key, value, delta)["delta"@] == Json::Number(delta),
{
    reveal_strlit("namespace");
    reveal_strlit("values");
    reveal_strlit("delta");
    assert("namespace"@.len() == 9 && "values"@.len() == 6 && "delta"@.len() == 5);
    assert(no_members().insert(key, Json::Text(value)) =~= map![key => Json::Text(value)]);
}

/// Calls about two descriptors are two calls: what is sent tells them apart.
pub proof fn descriptors_are_told_apart(
    key: Seq<char>,
    value: Seq<char>,
    other_key: Seq<char>,
    other_value: Seq<char>,
)
    ensures
        descriptor(key, value) == descriptor(other_key, other_value) <==> key == other_key && value
            == other_value,
{
    if descriptor(key, value) == descriptor(other_key, other_value) {
        let one = no_members().insert(key, Json::Text(value));
        let other = no_members().insert(other_key, Json::Text(other_value));
        assert(Json::Object(one)->Object_0 == Json::Object(other)->Object_0);
        assert(one.dom().contains(other_key));
        assert(one[key] == other[key]);
    }
}

/// No call goes to `/check_and_report`.
pub proof fn check_and_report_is_avoided(
    client: LimitadorView,
    key: Seq<char>,
    value: Seq<char>,
    delta: nat,
)
    ensures
        client.check_call(key, value).url != client.base + "/check_and_report"@,
        client.report_call(key, value, delta).url != client.base + "/check_and_report"@,
{
    reveal_strlit("/check");
    reveal_strlit("/report");
    reveal_strlit("/check_and_report");
    assert(client.check_url().len() < (client.base + "/check_and_report"@).len());
    assert(client.report_url().len() < (client.base + "/check_and_report"@).len());
}

/// Every status that an exchange brings is handed on as it is, 4xx and 5xx included, and every
/// failure of it is an error that names the URL and shows what failed: there is an error
/// exactly when there is no response.
pub proof fn a_status_is_handed_on_and_a_failure_is_named(
    url: Seq<char>,
    sent: Result<u16, reqwest::Error>,
)
    ensures
        sent matches Ok(code) ==> status_received(url, reply_shown(sent)) == Ok::<u16, Seq<char>>(
            code,
        ),
        sent matches Err(error) ==> status_received(url, reply_shown(sent)) == Err::<
            u16,
            Seq<char>,
        >("Limitador POST "@ + url + " failed: "@ + error_shown(error)),
        status_received(url, reply_shown(sent)) is Err <==> sent is Err,
{
}

/// A failed exchange is the same error to a check and to a report as it is on its own, under
/// the URL that each is sent to; a status is read by each as its own verdict.
pub proof fn outcomes_are_read_off_what_was_received(
    client: LimitadorView,
    reply: Result<u16, Seq<char>>,
)
    ensures
        match status_received(client.check_url(), reply) {
            Ok(code) => client.check_outcome(reply) == client.check_outcome(Ok(code)),
            Err(message) => client.check_outcome(reply) == Err::<CheckOutcome, _>(message),
        },
        match status_received(client.report_url(), reply) {
            Ok(code) => client.report_outcome(reply) == client.report_outcome(Ok(code)),
            Err(message) => client.report_outcome(reply) == Err::<(), _>(message),
        },
{
}

/// A verdict comes of two replies alone: 200 is within the limit and 429 is over it. A failed
/// call and any other status are errors, so that no failure is taken for a verdict. A debit
/// is recorded on 200 alone.
pub proof fn no_failure_is_taken_for_a_verdict(client: LimitadorView, reply: Result<u16, Seq<char>>)
    ensures
        client.check_outcome(reply) == Ok::<_, Seq<char>>(CheckOutcome::WithinLimit) <==> reply
            == Ok::<u16, Seq<char>>(200),
        client.check_outcome(reply) == Ok::<_, Seq<char>>(CheckOutcome::OverLimit) <==> reply
            == Ok::<u16, Seq<char>>(429),
        client.report_outcome(reply) is Ok <==> reply == Ok::<u16, Seq<char>>(200),
{
}

/// An unexpected status is an error, of a check and of a report alike, and the error's
/// message ends in the status as it is shown to people, which begins with its number.
pub proof fn an_unexpected_status_is_named(client: LimitadorView, code: u16)
    requires
        is_status(code),
    ensures
        code != 200 && code != 429 ==> (client.check_outcome(Ok(code)) matches Err(message)
            && status_line(code).is_suffix_of(message)),
        code != 200 ==> (client.report_outcome(Ok(code)) matches Err(message) && status_line(
            code,
        ).is_suffix_of(message)),
        status_digits(code).is_prefix_of(status_line(code)),
{
    let check = "Limitador "@ + "/check"@ + " returned unexpected status "@;
    let report = "Limitador "@ + "/report"@ + " returned unexpected status "@;
    assert(unexpected_status("/check"@, code) == check + status_line(code));
    assert(unexpected_status("/report"@, code) == report + status_line(code));
}

} // verus!
