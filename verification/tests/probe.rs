use offline_cache::model::{NetworkStatus, TransportFailure, TransportStage};
use offline_cache::probe::{
    check_network_status, ProbeKind, ProbePlan, ProbeRequest, ProbeStep,
    INTERNET_PROBE_TIMEOUT_SECS, TARGET_PROBE_TIMEOUT_SECS,
};

const TARGET: &str = "https://service.example";

fn plan(endpoints: &[&str]) -> ProbePlan {
    ProbePlan {
        internet_endpoints: endpoints.iter().map(|e| e.to_string()).collect(),
        target: TARGET.to_string(),
    }
}

fn no_answer() -> Result<u16, TransportFailure> {
    Err(TransportFailure { stage: TransportStage::Send, detail: "timed out".to_string() })
}

/// Runs a check against a transport that answers the URLs of `reachable`.
fn run_check(plan: ProbePlan, reachable: &[&str]) -> (NetworkStatus, Vec<ProbeRequest>) {
    let mut sent = Vec::new();
    let mut step = check_network_status(plan);
    loop {
        match step {
            ProbeStep::Probe(check, request) => {
                let answer =
                    if reachable.contains(&request.url.as_str()) { Ok(200) } else { no_answer() };
                sent.push(request);
                step = check.on_probe(answer);
            }
            ProbeStep::Done(status) => return (status, sent),
        }
    }
}

fn urls(sent: &[ProbeRequest]) -> Vec<&str> {
    sent.iter().map(|r| r.url.as_str()).collect()
}

#[test]
fn probe_timeouts_are_three_and_five_seconds() {
    assert_eq!(INTERNET_PROBE_TIMEOUT_SECS, 3);
    assert_eq!(TARGET_PROBE_TIMEOUT_SECS, 5);
}

#[test]
fn usual_plan_lists_general_endpoints_in_order() {
    let plan = ProbePlan::for_target(TARGET.to_string());
    assert_eq!(
        plan.internet_endpoints,
        vec!["https://www.google.com", "https://1.1.1.1", "https://8.8.8.8"]
    );
    assert_eq!(plan.target, TARGET);
}

#[test]
fn check_starts_with_first_general_endpoint() {
    match check_network_status(plan(&["https://a", "https://b"])) {
        ProbeStep::Probe(_, request) => {
            assert_eq!(
                request,
                ProbeRequest {
                    url: "https://a".to_string(),
                    timeout_secs: 3,
                    kind: ProbeKind::Internet,
                }
            );
        }
        other => panic!("expected a probe, got {:?}", other),
    }
}

#[test]
fn check_without_general_endpoints_is_offline_at_once() {
    match check_network_status(plan(&[])) {
        ProbeStep::Done(status) => {
            assert_eq!(status, NetworkStatus { is_online: false, can_reach_target: false });
        }
        other => panic!("expected a status, got {:?}", other),
    }
}

#[test]
fn status_never_probes_target_when_offline() {
    let (status, sent) = run_check(plan(&["https://a", "https://b", "https://c"]), &[TARGET]);
    assert_eq!(status, NetworkStatus { is_online: false, can_reach_target: false });
    assert_eq!(urls(&sent), vec!["https://a", "https://b", "https://c"]);
    assert!(sent.iter().all(|r| r.kind == ProbeKind::Internet));
    assert_eq!(sent.iter().filter(|r| r.kind == ProbeKind::Target).count(), 0);
}

#[test]
fn status_stops_general_probes_at_first_answer() {
    let (status, sent) = run_check(
        plan(&["https://a", "https://b", "https://c"]),
        &["https://a", "https://b", "https://c", TARGET],
    );
    assert_eq!(status, NetworkStatus { is_online: true, can_reach_target: true });
    assert_eq!(urls(&sent), vec!["https://a", TARGET]);
}

#[test]
fn status_tries_general_endpoints_in_order() {
    let (status, sent) =
        run_check(plan(&["https://a", "https://b", "https://c"]), &["https://c", TARGET]);
    assert_eq!(status, NetworkStatus { is_online: true, can_reach_target: true });
    assert_eq!(urls(&sent), vec!["https://a", "https://b", "https://c", TARGET]);
    assert_eq!(sent[3].kind, ProbeKind::Target);
    assert_eq!(sent[3].timeout_secs, 5);
    assert!(sent[..3].iter().all(|r| r.kind == ProbeKind::Internet && r.timeout_secs == 3));
}

#[test]
fn status_online_without_target() {
    let (status, sent) = run_check(plan(&["https://a", "https://b"]), &["https://b"]);
    assert_eq!(status, NetworkStatus { is_online: true, can_reach_target: false });
    assert_eq!(urls(&sent), vec!["https://a", "https://b", TARGET]);
}

#[test]
fn status_of_usual_plan_offline_sends_three_probes() {
    let (status, sent) = run_check(ProbePlan::for_target(TARGET.to_string()), &[]);
    assert_eq!(status, NetworkStatus { is_online: false, can_reach_target: false });
    assert_eq!(
        urls(&sent),
        vec!["https://www.google.com", "https://1.1.1.1", "https://8.8.8.8"]
    );
}

#[test]
fn target_listed_as_general_endpoint_is_probed_twice() {
    let (status, sent) = run_check(plan(&[TARGET]), &[TARGET]);
    assert_eq!(status, NetworkStatus { is_online: true, can_reach_target: true });
    assert_eq!(sent.len(), 2);
    assert_eq!(sent[0].kind, ProbeKind::Internet);
    assert_eq!(sent[1].kind, ProbeKind::Target);
}

#[test]
fn probe_counts_any_status_as_answer() {
    for status in [200, 204, 301, 404, 500, 503] {
        let first = match check_network_status(plan(&["https://a", "https://b"])) {
            ProbeStep::Probe(check, _) => check.on_probe(Ok(status)),
            other => panic!("expected a probe, got {:?}", other),
        };
        let end = match first {
            ProbeStep::Probe(check, request) => {
                assert_eq!(request.kind, ProbeKind::Target);
                check.on_probe(Ok(status))
            }
            other => panic!("expected the target probe, got {:?}", other),
        };
        match end {
            ProbeStep::Done(found) => {
                assert_eq!(found, NetworkStatus { is_online: true, can_reach_target: true });
            }
            other => panic!("expected a status, got {:?}", other),
        }
    }
}

#[test]
fn probe_counts_each_failure_as_no_answer() {
    for stage in [TransportStage::Setup, TransportStage::Send] {
        let failure = TransportFailure { stage, detail: "x".to_string() };
        match check_network_status(plan(&["https://a"])) {
            ProbeStep::Probe(check, _) => match check.on_probe(Err(failure)) {
                ProbeStep::Done(found) => {
                    assert_eq!(found, NetworkStatus { is_online: false, can_reach_target: false });
                }
                other => panic!("expected a status, got {:?}", other),
            },
            other => panic!("expected a probe, got {:?}", other),
        }
    }
}
