use limitador_quota::backend::{Call, CheckOutcome, QuotaBackend};
use limitador_quota::client::LimitadorClient;
use std::collections::BTreeMap;
use std::time::Duration;

/// A Limitador that counts: `/check` refuses once the delta would carry the counter past
/// `max`, and `/report` increments unconditionally.
struct Counting {
    max: u64,
    counters: BTreeMap<String, u64>,
}

impl Counting {
    fn new(max: u64) -> Self {
        Counting {
            max,
            counters: BTreeMap::new(),
        }
    }

    fn answer(&mut self, call: &Call) -> u16 {
        let meter = format!("{} {}", call.body["namespace"], call.body["values"]);
        let delta = call.body["delta"].as_u64().unwrap_or(0);
        let counter = self.counters.entry(meter).or_insert(0);
        if call.url == "http://limitador/check" {
            if *counter + delta > self.max {
                429
            } else {
                200
            }
        } else if call.url == "http://limitador/report" {
            *counter += delta;
            200
        } else {
            404
        }
    }
}

fn client(namespace: &str) -> LimitadorClient {
    LimitadorClient::new("http://limitador", namespace, Duration::from_secs(1))
        .expect("client builds")
}

fn check(service: &mut Counting, c: &LimitadorClient, sub: &str) -> CheckOutcome {
    let code = service.answer(&c.check_call("sub", sub));
    c.check_outcome(Ok(code)).expect("a verdict")
}

fn debit(service: &mut Counting, c: &LimitadorClient, sub: &str, delta: u64) {
    let code = service.answer(&c.report_call("sub", sub, delta));
    c.report_outcome(Ok(code)).expect("a recorded debit");
}

#[test]
fn cumulative_debits_reach_the_budget() {
    // Budget 100, debit 40 per round. The check runs before each round's debit, so counters
    // 0, 40, 80 all admit. The debits carry the counter to 120, and the fourth check refuses.
    let mut service = Counting::new(100);
    let c = client("grid-tokens");
    for round in 0..3 {
        assert_eq!(
            check(&mut service, &c, "bob"),
            CheckOutcome::WithinLimit,
            "round {round} must be admitted"
        );
        debit(&mut service, &c, "bob", 40);
    }
    assert_eq!(check(&mut service, &c, "bob"), CheckOutcome::OverLimit);
}

#[test]
fn the_check_denies_at_the_limit_and_not_below_it() {
    let mut service = Counting::new(10);
    let c = client("ns");
    debit(&mut service, &c, "bob", 9);
    assert_eq!(check(&mut service, &c, "bob"), CheckOutcome::WithinLimit);
    debit(&mut service, &c, "bob", 1);
    assert_eq!(check(&mut service, &c, "bob"), CheckOutcome::OverLimit);
}

#[test]
fn checks_charge_nothing() {
    let mut service = Counting::new(1);
    let c = client("ns");
    for _ in 0..5 {
        assert_eq!(check(&mut service, &c, "bob"), CheckOutcome::WithinLimit);
    }
}

#[test]
fn principals_and_namespaces_are_metered_apart() {
    let mut service = Counting::new(5);
    let c = client("ns");
    debit(&mut service, &c, "bob", 5);
    assert_eq!(check(&mut service, &c, "bob"), CheckOutcome::OverLimit);
    assert_eq!(check(&mut service, &c, "alice"), CheckOutcome::WithinLimit);
    assert_eq!(
        check(&mut service, &client("other"), "bob"),
        CheckOutcome::WithinLimit
    );
}
