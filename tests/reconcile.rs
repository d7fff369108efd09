use std::collections::HashSet;

use tonic_dynamic_channel::{DnsStatus, EndpointTemplate, Health, IpAddress, Plan, Reconciler};
use url::Url;

fn key(text: &str) -> IpAddress {
    if text.contains(':') {
        let (head, tail) = text.split_once("::").unwrap_or((text, ""));
        let parse = |s: &str| -> Vec<u16> {
            s.split(':').filter(|g| !g.is_empty()).map(|g| u16::from_str_radix(g, 16).unwrap()).collect()
        };
        let (front, back) = (parse(head), parse(tail));
        let mut groups = front.clone();
        groups.resize(8 - back.len(), 0);
        groups.extend(back);
        IpAddress::V6(groups.iter().fold(0u128, |acc, g| (acc << 16) | u128::from(*g)))
    } else {
        let octets: Vec<u32> = text.split('.').map(|o| o.parse().unwrap()).collect();
        IpAddress::V4(octets.iter().fold(0u32, |acc, o| (acc << 8) | o))
    }
}

fn keys(texts: &[&str]) -> Vec<IpAddress> {
    texts.iter().map(|t| key(t)).collect()
}

fn reconciler() -> Reconciler {
    let template =
        EndpointTemplate::new(Url::parse("http://localhost:50051").unwrap()).unwrap();
    Reconciler::new(template)
}

fn inserted(plan: &Plan) -> HashSet<IpAddress> {
    plan.inserts.iter().map(|d| d.address).collect()
}

fn removed(plan: &Plan) -> HashSet<IpAddress> {
    plan.removes.iter().copied().collect()
}

fn set(texts: &[&str]) -> HashSet<IpAddress> {
    keys(texts).into_iter().collect()
}

fn health(r: &Reconciler) -> Health {
    Health::of(r.count(), r.status())
}

#[test]
fn starts_resolved_with_no_endpoint() {
    let r = reconciler();
    assert!(r.is_running());
    assert_eq!(*r.status(), DnsStatus::Resolved);
    assert_eq!(r.count(), 0);
    assert_eq!(health(&r), Health::Broken);
    assert_eq!(r.domain(), "localhost");
}

#[test]
fn empty_resolution_reports_broken_health() {
    let mut r = reconciler();
    let plan = r.tick(Ok(vec![]));
    assert_eq!(plan.status, Some(DnsStatus::Resolved));
    assert!(plan.inserts.is_empty());
    assert!(plan.removes.is_empty());
    assert_eq!(plan.count, Some(0));
    assert_eq!(*r.status(), DnsStatus::Resolved);
    assert_eq!(r.count(), 0);
    assert_eq!(health(&r), Health::Broken);
}

#[test]
fn dropping_an_address_sends_one_remove() {
    let mut r = reconciler();
    let first = r.tick(Ok(keys(&["10.0.0.1", "::1"])));
    assert_eq!(inserted(&first), set(&["10.0.0.1", "::1"]));
    assert!(first.removes.is_empty());
    assert_eq!(first.count, Some(2));
    assert_eq!(r.count(), 2);

    let second = r.tick(Ok(keys(&["10.0.0.1"])));
    assert!(second.inserts.is_empty());
    assert_eq!(second.removes, keys(&["::1"]));
    assert_eq!(second.count, Some(1));
    assert_eq!(r.count(), 1);
    assert!(r.is_known(key("10.0.0.1")));
    assert!(!r.is_known(key("::1")));
}

#[test]
fn failed_resolution_keeps_endpoints() {
    let mut r = reconciler();
    r.tick(Ok(keys(&["10.0.0.1", "10.0.0.2"])));
    assert_eq!(*r.status(), DnsStatus::Resolved);
    assert_eq!(r.count(), 2);

    let failed = r.tick(Err("lookup timed out".to_string()));
    assert_eq!(
        failed.status,
        Some(DnsStatus::ResolutionError { details: "lookup timed out".to_string() })
    );
    assert!(failed.inserts.is_empty());
    assert!(failed.removes.is_empty());
    assert_eq!(failed.count, None);
    assert!(r.status().is_error());
    assert_eq!(r.count(), 2);
    assert_eq!(health(&r), Health::Undetermined);

    let again = r.tick(Ok(keys(&["10.0.0.2", "10.0.0.1"])));
    assert_eq!(again.status, Some(DnsStatus::Resolved));
    assert!(again.inserts.is_empty());
    assert!(again.removes.is_empty());
    assert_eq!(again.count, Some(2));
    assert_eq!(*r.status(), DnsStatus::Resolved);
    assert_eq!(r.count(), 2);
    assert_eq!(health(&r), Health::Healthy);
}

#[test]
fn failed_first_resolution_is_broken() {
    let mut r = reconciler();
    r.tick(Err("no such host".to_string()));
    assert!(r.status().is_error());
    assert_eq!(r.count(), 0);
    assert_eq!(health(&r), Health::Broken);
}

#[test]
fn closed_sink_stops_the_loop() {
    let mut r = reconciler();
    let plan = r.tick(Ok(keys(&["10.0.0.1"])));
    assert_eq!(plan.inserts.len(), 1);
    // The sink reports that it is closed on that insert.
    let stop = r.sink_closed();
    assert_eq!(stop.status, Some(DnsStatus::Stopped));
    assert!(stop.inserts.is_empty() && stop.removes.is_empty());
    assert_eq!(stop.count, None);
    assert!(!r.is_running());
    assert_eq!(*r.status(), DnsStatus::Stopped);

    let after = r.tick(Ok(keys(&["10.0.0.9"])));
    assert_eq!(after.status, None);
    assert!(after.inserts.is_empty() && after.removes.is_empty());
    assert_eq!(after.count, None);
    assert_eq!(*r.status(), DnsStatus::Stopped);

    let twice = r.sink_closed();
    assert_eq!(twice.status, None);
}

#[test]
fn same_set_twice_is_quiet() {
    let mut r = reconciler();
    let first = r.tick(Ok(keys(&["10.0.0.1", "::1", "10.0.0.1"])));
    assert_eq!(first.inserts.len(), 2);
    assert_eq!(first.count, Some(2));
    let second = r.tick(Ok(keys(&["::1", "10.0.0.1", "::1"])));
    assert!(second.inserts.is_empty());
    assert!(second.removes.is_empty());
    assert_eq!(second.count, Some(2));
}

#[test]
fn known_set_follows_each_resolution() {
    let mut r = reconciler();
    let outcomes: Vec<Result<Vec<IpAddress>, String>> = vec![
        Ok(keys(&["10.0.0.1", "10.0.0.2"])),
        Ok(keys(&["10.0.0.2", "10.0.0.3", "::1"])),
        Err("refused".to_string()),
        Ok(keys(&[])),
        Ok(keys(&["::2"])),
    ];
    let expected: Vec<HashSet<IpAddress>> = vec![
        set(&["10.0.0.1", "10.0.0.2"]),
        set(&["10.0.0.2", "10.0.0.3", "::1"]),
        set(&["10.0.0.2", "10.0.0.3", "::1"]),
        set(&[]),
        set(&["::2"]),
    ];
    let probes = keys(&["10.0.0.1", "10.0.0.2", "10.0.0.3", "::1", "::2"]);
    for (outcome, want) in outcomes.into_iter().zip(expected) {
        r.tick(outcome);
        assert_eq!(r.count(), want.len());
        for p in &probes {
            assert_eq!(r.is_known(*p), want.contains(p));
        }
    }
}

#[test]
fn inserts_never_repeat_a_key() {
    let mut r = reconciler();
    let runs = [
        keys(&["10.0.0.1", "10.0.0.2"]),
        keys(&["10.0.0.2"]),
        keys(&["10.0.0.1", "10.0.0.2", "::1"]),
        keys(&["::1", "10.0.0.1", "::1"]),
        keys(&[]),
        keys(&["10.0.0.2"]),
    ];
    let mut installed: HashSet<IpAddress> = HashSet::new();
    for run in runs {
        let plan = r.tick(Ok(run.clone()));
        for d in &plan.inserts {
            assert!(installed.insert(d.address), "a key was inserted twice");
        }
        for k in &plan.removes {
            assert!(installed.remove(k), "a key that was not installed was removed");
        }
        assert_eq!(installed, run.into_iter().collect::<HashSet<_>>());
    }
}

#[test]
fn inserts_carry_the_template_descriptor() {
    let mut r = reconciler();
    let plan = r.tick(Ok(keys(&["203.0.113.6", "2001:db8::"])));
    let mut uris: Vec<String> = plan.inserts.iter().map(|d| d.uri.clone()).collect();
    uris.sort();
    assert_eq!(uris, vec!["http://203.0.113.6:50051/", "http://[2001:db8::]:50051/"]);
}

#[test]
fn health_formula() {
    let error = DnsStatus::resolution_error("boom".to_string());
    assert_eq!(Health::of(0, &DnsStatus::Resolved), Health::Broken);
    assert_eq!(Health::of(0, &error), Health::Broken);
    assert_eq!(Health::of(0, &DnsStatus::Stopped), Health::Broken);
    assert_eq!(Health::of(1, &DnsStatus::Resolved), Health::Healthy);
    assert_eq!(Health::of(5, &error), Health::Undetermined);
    assert_eq!(Health::of(5, &DnsStatus::Stopped), Health::Healthy);
}

#[test]
fn status_helpers() {
    let error = DnsStatus::resolution_error("boom".to_string());
    assert_eq!(error, DnsStatus::ResolutionError { details: "boom".to_string() });
    assert!(error.is_error());
    assert!(!DnsStatus::Resolved.is_error());
    assert!(!DnsStatus::Stopped.is_error());
    assert_eq!(error.clone(), error);
}
