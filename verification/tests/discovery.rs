use kraken_utils::CandidateAddress;
use kraken_utils::InterfaceIp;
use kraken_utils::LocalAddress;
use kraken_utils::ProbeOutcome;
use kraken_utils::ScanSession;
use kraken_utils::candidate_strings;
use kraken_utils::candidates_for_interfaces;
use kraken_utils::classify_probe;
use kraken_utils::enumerate_candidates;
use kraken_utils::first_responder;
use kraken_utils::get_lan_addr;
use kraken_utils::select_local_address;

#[test]
fn candidates_count_and_prefix() {
    let local = LocalAddress { a: 192, b: 168, c: 1, d: 42 };
    let cands = enumerate_candidates(&local);
    assert_eq!(cands.len(), 255);
    for (i, c) in cands.iter().enumerate() {
        assert_eq!(c.a, 192);
        assert_eq!(c.b, 168);
        assert_eq!(c.c, 1);
        assert_eq!(c.d as usize, i);
    }
    assert_eq!(cands.last().unwrap().d, 254);
}

#[test]
fn candidates_have_no_duplicates() {
    let local = LocalAddress { a: 10, b: 0, c: 7, d: 9 };
    let cands = enumerate_candidates(&local);
    for i in 0..cands.len() {
        for j in (i + 1)..cands.len() {
            assert_ne!(cands[i], cands[j]);
        }
    }
}

#[test]
fn candidates_never_include_broadcast() {
    let local = LocalAddress { a: 172, b: 16, c: 5, d: 1 };
    let cands = enumerate_candidates(&local);
    assert!(cands.iter().all(|c| c.d != 255));
}

#[test]
fn candidate_strings_are_dotted_quads() {
    let local = LocalAddress { a: 192, b: 168, c: 1, d: 42 };
    let cands = enumerate_candidates(&local);
    let strs = candidate_strings(&cands);
    assert_eq!(strs.len(), 255);
    assert_eq!(strs[0], "192.168.1.0");
    assert_eq!(strs[9], "192.168.1.9");
    assert_eq!(strs[100], "192.168.1.100");
    assert_eq!(strs[254], "192.168.1.254");
}

#[test]
fn address_rendering_exact() {
    assert_eq!(LocalAddress { a: 0, b: 0, c: 0, d: 0 }.to_addr_string(), "0.0.0.0");
    assert_eq!(LocalAddress { a: 255, b: 255, c: 255, d: 255 }.to_addr_string(), "255.255.255.255");
    assert_eq!(LocalAddress { a: 127, b: 0, c: 0, d: 1 }.to_addr_string(), "127.0.0.1");
    assert_eq!(LocalAddress { a: 9, b: 10, c: 99, d: 100 }.to_addr_string(), "9.10.99.100");
    assert_eq!(CandidateAddress { a: 172, b: 16, c: 0, d: 8 }.to_addr_string(), "172.16.0.8");
}

#[test]
fn responders_stay_within_candidates() {
    let local = LocalAddress { a: 10, b: 1, c: 2, d: 3 };
    let cands = enumerate_candidates(&local);
    let mut session = ScanSession::begin(&cands);
    for (i, c) in cands.iter().enumerate() {
        let outcome = if i % 7 == 0 {
            ProbeOutcome::Responded(*c)
        } else {
            ProbeOutcome::Failed(*c)
        };
        session.record(outcome);
    }
    assert!(session.is_complete());
    let responders = session.into_responders();
    assert!(!responders.is_empty());
    for r in &responders {
        assert!(cands.contains(r));
    }
}

#[test]
fn session_completes_only_after_every_probe() {
    let cands = vec![
        CandidateAddress { a: 10, b: 1, c: 2, d: 0 },
        CandidateAddress { a: 10, b: 1, c: 2, d: 1 },
        CandidateAddress { a: 10, b: 1, c: 2, d: 2 },
    ];
    let mut session = ScanSession::begin(&cands);
    assert!(!session.is_complete());
    session.record(ProbeOutcome::Responded(cands[1]));
    assert!(!session.is_complete());
    session.record(ProbeOutcome::Failed(cands[0]));
    assert!(!session.is_complete());
    session.record(ProbeOutcome::Failed(cands[2]));
    assert!(session.is_complete());
    let responders = session.into_responders();
    assert_eq!(responders, vec![cands[1]]);
}

#[test]
fn responders_arrive_in_completion_order() {
    let c0 = CandidateAddress { a: 10, b: 0, c: 0, d: 4 };
    let c1 = CandidateAddress { a: 10, b: 0, c: 0, d: 9 };
    let c2 = CandidateAddress { a: 10, b: 0, c: 0, d: 2 };
    let cands = vec![c0, c1, c2];
    let mut session = ScanSession::begin(&cands);
    session.record(ProbeOutcome::Responded(c1));
    session.record(ProbeOutcome::Responded(c2));
    session.record(ProbeOutcome::Responded(c0));
    let responders = session.into_responders();
    assert_eq!(responders, vec![c1, c2, c0]);
}

#[test]
fn error_status_still_counts_as_responder() {
    let c = CandidateAddress { a: 192, b: 168, c: 0, d: 17 };
    assert!(matches!(classify_probe(c, Some(500)), ProbeOutcome::Responded(a) if a == c));
    assert!(matches!(classify_probe(c, Some(404)), ProbeOutcome::Responded(_)));
    assert!(matches!(classify_probe(c, Some(200)), ProbeOutcome::Responded(_)));
    assert!(matches!(classify_probe(c, None), ProbeOutcome::Failed(a) if a == c));
}

#[test]
fn locator_with_zero_responders_returns_none() {
    let responders: Vec<CandidateAddress> = Vec::new();
    assert_eq!(first_responder(&responders), None);
}

#[test]
fn locator_with_one_responder_returns_it() {
    let c = CandidateAddress { a: 192, b: 168, c: 1, d: 77 };
    let responders = vec![c];
    assert_eq!(first_responder(&responders), Some(c));
}

#[test]
fn selection_takes_first_non_loopback() {
    let ips = vec![
        InterfaceIp::Other,
        InterfaceIp::V4(LocalAddress { a: 127, b: 0, c: 0, d: 1 }),
        InterfaceIp::V4(LocalAddress { a: 10, b: 0, c: 0, d: 5 }),
        InterfaceIp::V4(LocalAddress { a: 192, b: 168, c: 0, d: 1 }),
    ];
    assert_eq!(select_local_address(&ips), Some(LocalAddress { a: 10, b: 0, c: 0, d: 5 }));
}

#[test]
fn loopback_only_yields_nothing_end_to_end() {
    let ips = vec![InterfaceIp::V4(LocalAddress { a: 127, b: 0, c: 0, d: 1 })];
    assert_eq!(select_local_address(&ips), None);
    let cands = candidates_for_interfaces(&ips);
    assert!(cands.is_empty());
    let session = ScanSession::begin(&cands);
    assert!(session.is_complete());
    let responders = session.into_responders();
    assert!(responders.is_empty());
    assert_eq!(first_responder(&responders), None);
}

#[test]
fn no_interfaces_yields_nothing() {
    let ips: Vec<InterfaceIp> = Vec::new();
    assert_eq!(select_local_address(&ips), None);
    assert!(candidates_for_interfaces(&ips).is_empty());
}

#[test]
fn lan_addr_is_never_loopback() {
    let addr = get_lan_addr();
    assert_ne!(Some(String::from("127.0.0.1")), addr);
}
