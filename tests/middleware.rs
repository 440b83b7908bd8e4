use request_log::{
    complete, header_text, log_action, outcome_status, severity_of, status_label, Elapsed,
    HttpRequestLog, LogAction, PeerAddr, RequestHead, Sampler, Severity, FALLBACK_STATUS,
};

const MILLI: u64 = 1_000_000;
const SECOND: u64 = 1_000_000_000;

fn head(referer: Option<&[u8]>, user_agent: Option<&[u8]>, forwarded: Option<&[u8]>) -> RequestHead {
    RequestHead {
        remote_addr: Some(PeerAddr::V4 { octets: [10, 0, 0, 7], port: 51234 }),
        method: "GET".to_string(),
        path: "/v1/accounts/0x1".to_string(),
        referer: referer.map(|b| b.to_vec()),
        user_agent: user_agent.map(|b| b.to_vec()),
        forwarded: forwarded.map(|b| b.to_vec()),
    }
}

fn plain_head() -> RequestHead {
    head(None, None, None)
}

fn elapsed_ms(ms: u64) -> Elapsed {
    Elapsed::new(ms / 1000, ((ms % 1000) * MILLI) as u32)
}

#[test]
fn missing_headers_are_absent() {
    let log = HttpRequestLog::from_head(&plain_head());
    assert_eq!(log.referer, None);
    assert_eq!(log.user_agent, None);
    assert_eq!(log.forwarded, None);
    assert_eq!(log.method, "GET");
    assert_eq!(log.path, "/v1/accounts/0x1");
    assert_eq!(log.remote_addr, Some(PeerAddr::V4 { octets: [10, 0, 0, 7], port: 51234 }));
    assert_eq!(log.status, 0);
    assert_eq!(log.elapsed, Elapsed::zero());
}

#[test]
fn present_headers_are_read_as_text() {
    let log = HttpRequestLog::from_head(&head(
        Some(b"https://example.com/"),
        Some(b"curl/8.0\t(x)"),
        Some(b"for=192.0.2.60;proto=http"),
    ));
    assert_eq!(log.referer.as_deref(), Some("https://example.com/"));
    assert_eq!(log.user_agent.as_deref(), Some("curl/8.0\t(x)"));
    assert_eq!(log.forwarded.as_deref(), Some("for=192.0.2.60;proto=http"));
}

#[test]
fn undecodable_header_is_absent() {
    let log = HttpRequestLog::from_head(&head(Some(b"caf\xc3\xa9"), Some(b"a\x7fb"), Some(b"x\ny")));
    assert_eq!(log.referer, None);
    assert_eq!(log.user_agent, None);
    assert_eq!(log.forwarded, None);
}

#[test]
fn header_text_rules() {
    assert_eq!(header_text(&None), None);
    assert_eq!(header_text(&Some(Vec::new())), Some(String::new()));
    assert_eq!(header_text(&Some(b" ~".to_vec())), Some(" ~".to_string()));
    assert_eq!(header_text(&Some(vec![31])), None);
    assert_eq!(header_text(&Some(vec![b'a', 200])), None);
}

#[test]
fn extraction_twice_gives_identical_records() {
    let h = head(Some(b"r"), Some(b"ua"), None);
    let a = HttpRequestLog::from_head(&h);
    let b = HttpRequestLog::from_head(&h);
    assert_eq!(a, b);
}

#[test]
fn status_labels_are_decimal() {
    assert_eq!(status_label(0), "0");
    assert_eq!(status_label(9), "9");
    assert_eq!(status_label(10), "10");
    assert_eq!(status_label(200), "200");
    assert_eq!(status_label(404), "404");
    assert_eq!(status_label(503), "503");
    assert_eq!(status_label(65535), "65535");
}

#[test]
fn outcome_status_and_severity() {
    assert_eq!(outcome_status::<(), ()>(&Ok(((), 204))), 204);
    assert_eq!(outcome_status::<(), ()>(&Err(())), FALLBACK_STATUS);
    assert_eq!(severity_of(499), Severity::Debug);
    assert_eq!(severity_of(500), Severity::Error);
    assert_eq!(severity_of(599), Severity::Error);
}

#[test]
fn status_404_is_debug_and_unsampled() {
    let mut sampler = Sampler::per_second();
    let r = complete::<&str, ()>(HttpRequestLog::from_head(&plain_head()), Ok(("nf", 404)), elapsed_ms(3), &mut sampler, 5);
    assert_eq!(r.action, LogAction::Emit(Severity::Debug));
    assert_eq!(r.observation.label, "404");
    assert_eq!(r.observation.elapsed, elapsed_ms(3));
    assert_eq!(r.log.status, 404);
    assert_eq!(sampler, Sampler::per_second());
}

#[test]
fn ten_errors_within_an_interval_log_once() {
    let mut sampler = Sampler::per_second();
    let mut emitted = 0;
    let mut labels = Vec::new();
    for i in 0..10u64 {
        let now = 2 * SECOND + i * 20 * MILLI;
        let r = complete::<(), ()>(HttpRequestLog::from_head(&plain_head()), Ok(((), 503)), elapsed_ms(1), &mut sampler, now);
        match r.action {
            LogAction::Emit(Severity::Error) => emitted += 1,
            LogAction::Suppress => {}
            other => panic!("unexpected action {:?}", other),
        }
        labels.push(r.observation.label);
    }
    assert_eq!(emitted, 1);
    assert_eq!(labels.len(), 10);
    assert!(labels.iter().all(|l| l == "503"));
}

#[test]
fn routine_records_pass_during_error_burst() {
    let mut sampler = Sampler::per_second();
    let first = complete::<(), ()>(HttpRequestLog::from_head(&plain_head()), Ok(((), 500)), elapsed_ms(1), &mut sampler, 0);
    assert_eq!(first.action, LogAction::Emit(Severity::Error));
    for i in 1..5u64 {
        let r = complete::<(), ()>(HttpRequestLog::from_head(&plain_head()), Ok(((), 200)), elapsed_ms(1), &mut sampler, i);
        assert_eq!(r.action, LogAction::Emit(Severity::Debug));
    }
    assert_eq!(sampler.last_pass, Some(0));
}

#[test]
fn error_passes_again_after_quiet_interval() {
    let mut sampler = Sampler::per_second();
    assert!(sampler.try_pass(100));
    assert!(!sampler.try_pass(100 + SECOND - 1));
    assert_eq!(sampler.last_pass, Some(100));
    assert!(sampler.try_pass(100 + SECOND));
    assert_eq!(sampler.last_pass, Some(100 + SECOND));
    // a clock reading before the last pass counts as no time gone by
    assert!(!sampler.try_pass(50));
}

#[test]
fn zero_interval_never_suppresses() {
    let mut sampler = Sampler::new(0);
    assert!(sampler.try_pass(7));
    assert!(sampler.try_pass(7));
    assert!(sampler.try_pass(3));
}

#[test]
fn log_action_consults_sampler_for_errors_only() {
    let mut sampler = Sampler::new(10);
    assert_eq!(log_action(Severity::Error, &mut sampler, 0), LogAction::Emit(Severity::Error));
    assert_eq!(log_action(Severity::Error, &mut sampler, 5), LogAction::Suppress);
    assert_eq!(log_action(Severity::Debug, &mut sampler, 6), LogAction::Emit(Severity::Debug));
    assert_eq!(sampler.last_pass, Some(0));
}

#[test]
fn success_payload_is_returned_unchanged() {
    let mut sampler = Sampler::per_second();
    let body = vec![1u8, 2, 3, 255];
    let r = complete::<Vec<u8>, String>(HttpRequestLog::from_head(&plain_head()), Ok((body.clone(), 201)), elapsed_ms(12), &mut sampler, 0);
    assert_eq!(r.result, Ok(body));
    assert_eq!(r.log.status, 201);
    assert_eq!(r.log.elapsed, elapsed_ms(12));
    assert_eq!(r.log.method, "GET");
}

#[test]
fn failure_is_returned_unchanged_and_observed_as_500() {
    let mut sampler = Sampler::per_second();
    let r = complete::<Vec<u8>, String>(HttpRequestLog::from_head(&plain_head()), Err("downstream broke".to_string()), elapsed_ms(1500), &mut sampler, 0);
    assert_eq!(r.result, Err("downstream broke".to_string()));
    assert_eq!(r.log.status, 500);
    assert_eq!(r.observation.label, "500");
    assert_eq!(r.observation.elapsed, Elapsed::new(1, 500_000_000));
    assert_eq!(r.action, LogAction::Emit(Severity::Error));
}

#[test]
fn every_request_is_observed_once() {
    let mut sampler = Sampler::per_second();
    let outcomes: Vec<Result<((), u16), ()>> = vec![Ok(((), 200)), Ok(((), 503)), Err(()), Ok(((), 302)), Ok(((), 500))];
    let mut labels = Vec::new();
    for (i, o) in outcomes.into_iter().enumerate() {
        let r = complete(HttpRequestLog::from_head(&plain_head()), o, elapsed_ms(2), &mut sampler, i as u64);
        labels.push(r.observation.label);
    }
    assert_eq!(labels, vec!["200", "503", "500", "302", "500"]);
}

#[test]
fn ipv6_peer_is_kept() {
    let mut h = plain_head();
    let peer = PeerAddr::V6 { segments: [0x2001, 0xdb8, 0, 0, 0, 0, 0, 1], port: 443, flowinfo: 0, scope_id: 3 };
    h.remote_addr = Some(peer);
    assert_eq!(HttpRequestLog::from_head(&h).remote_addr, Some(peer));
    h.remote_addr = None;
    assert_eq!(HttpRequestLog::from_head(&h).remote_addr, None);
}
