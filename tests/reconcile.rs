use cloudflare::provider::{Method, ProviderRequest, Reply};
use cloudflare::reconciler::{Outcome, Phase, Reconciliation, Step};
use cloudflare::typings::{DNSListResponse, DNSRecordSpec, DNSResponse, Error};

const ZONE: &str = "zone-1";
const LIST_URL: &str = "https://api.cloudflare.com/client/v4/zones/zone-1/dns_records";

fn record(id: &str, name: &str, record_type: &str, content: &str, proxied: bool) -> DNSRecordSpec {
    DNSRecordSpec {
        id: id.to_string(),
        record_type: record_type.to_string(),
        name: name.to_string(),
        content: content.to_string(),
        proxied,
    }
}

fn listing(records: Vec<DNSRecordSpec>) -> Reply<DNSListResponse> {
    Reply::Answered {
        status: 200,
        body: Ok(DNSListResponse { result: records, success: true, errors: vec![], messages: vec![] }),
    }
}

fn written(r: DNSRecordSpec) -> Reply<DNSResponse> {
    Reply::Answered {
        status: 200,
        body: Ok(DNSResponse { result: r, success: true, errors: vec![], messages: vec![] }),
    }
}

fn same_record(a: &DNSRecordSpec, b: &DNSRecordSpec) -> bool {
    a.id == b.id && a.record_type == b.record_type && a.name == b.name && a.content == b.content
        && a.proxied == b.proxied
}

fn started(desired: DNSRecordSpec) -> Reconciliation {
    let mut pass = Reconciliation::new(ZONE.to_string(), desired);
    let req = pass.begin();
    assert_eq!(req.method, Method::Get);
    assert_eq!(req.url, LIST_URL);
    assert!(req.body.is_none());
    assert_eq!(pass.phase, Phase::Listing);
    pass
}

fn sent(step: Step) -> ProviderRequest {
    match step {
        Step::Send(r) => r,
        Step::Finish(o) => panic!("expected a call, got {:?}", o),
    }
}

#[test]
fn absent_record_is_created_with_one_post() {
    let desired = record("", "a.example.com", "A", "1.2.3.4", true);
    let mut pass = started(desired.clone());
    let req = sent(pass.on_listed(listing(vec![])));
    assert_eq!(req.method, Method::Post);
    assert_eq!(req.url, LIST_URL);
    assert!(same_record(req.body.as_ref().unwrap(), &desired));
    assert_eq!(pass.phase, Phase::Creating);
    let outcome = pass.on_written(written(record("new", "a.example.com", "A", "1.2.3.4", true)));
    assert!(matches!(outcome, Outcome::Created));
    assert_eq!(pass.phase, Phase::Done);
}

#[test]
fn create_body_carries_no_identifier() {
    let desired = record("stale", "b.example.com", "A", "1.2.3.4", false);
    let mut pass = started(desired);
    let req = sent(pass.on_listed(listing(vec![record("x", "c.example.com", "A", "9.9.9.9", true)])));
    assert_eq!(req.method, Method::Post);
    let body = req.body.unwrap();
    assert_eq!(body.id, "");
    assert_eq!(body.name, "b.example.com");
    assert!(!body.proxied);
}

#[test]
fn differing_record_is_updated_under_its_id() {
    let desired = record("", "a.example.com", "A", "5.6.7.8", true);
    let remote = record("r1", "a.example.com", "A", "1.2.3.4", true);
    let mut pass = started(desired);
    let req = sent(pass.on_listed(listing(vec![remote])));
    assert_eq!(req.method, Method::Put);
    assert_eq!(req.url, format!("{}/r1", LIST_URL));
    let body = req.body.unwrap();
    assert!(same_record(&body, &record("r1", "a.example.com", "A", "5.6.7.8", true)));
    assert_eq!(pass.phase, Phase::Updating);
    let outcome = pass.on_written(written(body));
    assert!(matches!(outcome, Outcome::Updated));
}

#[test]
fn differing_proxied_flag_is_updated() {
    let desired = record("", "a.example.com", "A", "1.2.3.4", false);
    let mut pass = started(desired);
    let req = sent(pass.on_listed(listing(vec![record("r7", "a.example.com", "A", "1.2.3.4", true)])));
    assert_eq!(req.method, Method::Put);
    assert_eq!(req.url, format!("{}/r7", LIST_URL));
    assert!(!req.body.unwrap().proxied);
}

#[test]
fn identical_record_is_unchanged_without_writes() {
    let desired = record("", "a.example.com", "A", "1.2.3.4", true);
    let mut pass = started(desired);
    let step = pass.on_listed(listing(vec![record("r1", "a.example.com", "A", "1.2.3.4", true)]));
    assert!(matches!(step, Step::Finish(Outcome::Unchanged)));
    assert_eq!(pass.phase, Phase::Done);
}

#[test]
fn record_of_other_type_does_not_match() {
    let desired = record("", "a.example.com", "A", "1.2.3.4", true);
    let mut pass = started(desired);
    let req = sent(pass.on_listed(listing(vec![record("r1", "a.example.com", "AAAA", "1.2.3.4", true)])));
    assert_eq!(req.method, Method::Post);
}

#[test]
fn first_of_two_matches_is_used() {
    let desired = record("", "a.example.com", "A", "5.6.7.8", true);
    let mut pass = started(desired);
    let req = sent(pass.on_listed(listing(vec![
        record("r0", "z.example.com", "A", "1.1.1.1", true),
        record("r1", "a.example.com", "A", "1.2.3.4", true),
        record("r2", "a.example.com", "A", "5.6.7.8", true),
    ])));
    assert_eq!(req.url, format!("{}/r1", LIST_URL));
}

#[test]
fn second_pass_after_create_is_unchanged() {
    let desired = record("", "a.example.com", "A", "1.2.3.4", true);
    let mut first = started(desired.clone());
    let req = sent(first.on_listed(listing(vec![])));
    assert_eq!(req.method, Method::Post);
    let mut stored = req.body.unwrap();
    stored.id = "issued-1".to_string();
    assert!(matches!(first.on_written(written(stored.clone())), Outcome::Created));

    let mut second = started(desired);
    let step = second.on_listed(listing(vec![stored]));
    assert!(matches!(step, Step::Finish(Outcome::Unchanged)));
}

#[test]
fn second_pass_after_update_is_unchanged() {
    let desired = record("", "a.example.com", "A", "5.6.7.8", true);
    let mut first = started(desired.clone());
    let req = sent(first.on_listed(listing(vec![record("r1", "a.example.com", "A", "1.2.3.4", true)])));
    let stored = req.body.unwrap();
    assert!(matches!(first.on_written(written(stored.clone())), Outcome::Updated));

    let mut second = started(desired);
    let step = second.on_listed(listing(vec![stored]));
    assert!(matches!(step, Step::Finish(Outcome::Unchanged)));
}

#[test]
fn listing_with_error_status_fails_without_writes() {
    let mut pass = started(record("", "a.example.com", "A", "1.2.3.4", true));
    let reply = Reply::Answered {
        status: 403,
        body: Ok(DNSListResponse {
            result: vec![],
            success: false,
            errors: vec!["Authentication error".to_string()],
            messages: vec![],
        }),
    };
    match pass.on_listed(reply) {
        Step::Finish(Outcome::Failed(Error::ProviderRejection { status, errors })) => {
            assert_eq!(status, 403);
            assert_eq!(errors, vec!["Authentication error".to_string()]);
        }
        other => panic!("expected a rejection, got {:?}", other),
    }
    assert_eq!(pass.phase, Phase::Done);
}

#[test]
fn listing_with_error_status_and_no_body_fails() {
    let mut pass = started(record("", "a.example.com", "A", "1.2.3.4", true));
    let reply = Reply::Answered { status: 500, body: Err("expected value".to_string()) };
    match pass.on_listed(reply) {
        Step::Finish(Outcome::Failed(Error::ProviderRejection { status, errors })) => {
            assert_eq!(status, 500);
            assert!(errors.is_empty());
        }
        other => panic!("expected a rejection, got {:?}", other),
    }
}

#[test]
fn unreachable_provider_fails_the_pass() {
    let mut pass = started(record("", "a.example.com", "A", "1.2.3.4", true));
    match pass.on_listed(Reply::Unreachable("connection refused".to_string())) {
        Step::Finish(Outcome::Failed(Error::NetworkError(m))) => assert_eq!(m, "connection refused"),
        other => panic!("expected a network error, got {:?}", other),
    }
}

#[test]
fn unparsable_listing_is_a_protocol_error() {
    let mut pass = started(record("", "a.example.com", "A", "1.2.3.4", true));
    match pass.on_listed(Reply::Answered { status: 200, body: Err("missing field".to_string()) }) {
        Step::Finish(Outcome::Failed(Error::ProtocolError(m))) => assert_eq!(m, "missing field"),
        other => panic!("expected a protocol error, got {:?}", other),
    }
}

#[test]
fn listing_with_success_false_is_rejected() {
    let mut pass = started(record("", "a.example.com", "A", "1.2.3.4", true));
    let reply = Reply::Answered {
        status: 200,
        body: Ok(DNSListResponse {
            result: vec![],
            success: false,
            errors: vec!["zone locked".to_string()],
            messages: vec![],
        }),
    };
    match pass.on_listed(reply) {
        Step::Finish(Outcome::Failed(Error::ProviderRejection { status, errors })) => {
            assert_eq!(status, 200);
            assert_eq!(errors, vec!["zone locked".to_string()]);
        }
        other => panic!("expected a rejection, got {:?}", other),
    }
}

#[test]
fn status_just_outside_success_range_is_rejected() {
    for status in [199u16, 300u16] {
        let mut pass = started(record("", "a.example.com", "A", "1.2.3.4", true));
        let step = pass.on_listed(Reply::Answered {
            status,
            body: Ok(DNSListResponse { result: vec![], success: true, errors: vec![], messages: vec![] }),
        });
        assert!(matches!(step, Step::Finish(Outcome::Failed(Error::ProviderRejection { .. }))));
    }
    let mut pass = started(record("", "a.example.com", "A", "1.2.3.4", true));
    let step = pass.on_listed(Reply::Answered {
        status: 299,
        body: Ok(DNSListResponse { result: vec![], success: true, errors: vec![], messages: vec![] }),
    });
    assert!(matches!(step, Step::Send(_)));
}

#[test]
fn failed_create_fails_the_pass() {
    let mut pass = started(record("", "a.example.com", "A", "1.2.3.4", true));
    let _ = sent(pass.on_listed(listing(vec![])));
    let reply = Reply::Answered {
        status: 400,
        body: Ok(DNSResponse {
            result: record("", "a.example.com", "A", "1.2.3.4", true),
            success: false,
            errors: vec!["invalid content".to_string()],
            messages: vec![],
        }),
    };
    match pass.on_written(reply) {
        Outcome::Failed(Error::ProviderRejection { status, errors }) => {
            assert_eq!(status, 400);
            assert_eq!(errors, vec!["invalid content".to_string()]);
        }
        other => panic!("expected a rejection, got {:?}", other),
    }
    assert_eq!(pass.phase, Phase::Done);
}

#[test]
fn unreachable_update_fails_the_pass() {
    let mut pass = started(record("", "a.example.com", "A", "5.6.7.8", true));
    let _ = sent(pass.on_listed(listing(vec![record("r1", "a.example.com", "A", "1.2.3.4", true)])));
    let outcome = pass.on_written(Reply::Unreachable("timed out".to_string()));
    assert!(matches!(outcome, Outcome::Failed(Error::NetworkError(_))));
}
