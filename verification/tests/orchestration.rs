use portscan::fingerprint::finalize_verdict;
use portscan::fingerprint::initial_verdict;
use portscan::fingerprint::probe_plan;
use portscan::fingerprint::verdict_from_greeting;
use portscan::fingerprint::verdict_from_http;
use portscan::fingerprint::verdict_from_ssh;
use portscan::fingerprint::verdict_from_tls;
use portscan::fingerprint::ProbeKind;
use portscan::http::parse_http_response;
use portscan::scanner::port_tasks;
use portscan::service_info::PortState;
use portscan::service_info::Protocol;
use portscan::service_info::ServiceInfo;
use portscan::signatures::BannerPattern;
use portscan::signatures::HttpServerPattern;
use portscan::signatures::SignatureDatabase;
use portscan::signatures::SignatureMatcher;
use portscan::ssh::parse_ssh_banner;
use portscan::web_state::ScanState;

fn sample_database() -> SignatureDatabase {
    SignatureDatabase {
        banner_patterns: vec![
            BannerPattern {
                pattern: "OpenSSH".to_string(),
                service: "ssh".to_string(),
                product: "OpenSSH".to_string(),
                confidence: 90,
            },
            BannerPattern {
                pattern: "SSH".to_string(),
                service: "ssh".to_string(),
                product: "GenericSSH".to_string(),
                confidence: 80,
            },
        ],
        http_server_patterns: vec![HttpServerPattern {
            pattern: "nginx/([0-9.]+)".to_string(),
            service: "http".to_string(),
            product: "nginx".to_string(),
            confidence: 90,
            version_group: Some(1),
        }],
        port_hints: vec![(22, "ssh".to_string()), (80, "http".to_string())],
    }
}

#[test]
fn test_initial_verdict_applies_hint_and_transport() {
    let matcher = SignatureMatcher::from_database(sample_database());
    let tcp = initial_verdict(22, Protocol::TCP, &matcher);
    assert_eq!(tcp.state, PortState::Open);
    assert_eq!(tcp.service, Some("ssh".to_string()));
    assert_eq!(tcp.confidence, 30);
    let udp = initial_verdict(22, Protocol::UDP, &matcher);
    assert_eq!(udp.state, PortState::Filtered);
    assert_eq!(udp.service, Some("ssh".to_string()));
    let cold = initial_verdict(4444, Protocol::TCP, &matcher);
    assert_eq!(cold.service, None);
    assert_eq!(cold.confidence, 0);
}

#[test]
fn test_probe_plan_orders_and_gates() {
    assert_eq!(probe_plan(22, &None), vec![ProbeKind::Ssh]);
    assert_eq!(probe_plan(80, &None), vec![ProbeKind::Http]);
    assert_eq!(probe_plan(443, &None), vec![ProbeKind::Tls]);
    // 465 is both an SMTP and a TLS port: SMTP must come first.
    assert_eq!(probe_plan(465, &None), vec![ProbeKind::Smtp, ProbeKind::Tls]);
    // A hint re-triggers the protocol on any port number.
    assert_eq!(probe_plan(4444, &Some("http".to_string())), vec![ProbeKind::Http]);
    assert_eq!(probe_plan(4444, &None), Vec::<ProbeKind>::new());
}

#[test]
fn test_verdict_from_ssh_signature_hit() {
    let matcher = SignatureMatcher::from_database(sample_database());
    let info = initial_verdict(22, Protocol::TCP, &matcher);
    let banner = parse_ssh_banner("SSH-2.0-OpenSSH_8.2p1 Ubuntu-4ubuntu0.5\r\n").unwrap();
    let verdict = verdict_from_ssh(info, &banner, &matcher);
    assert_eq!(verdict.service, Some("OpenSSH".to_string()));
    assert_eq!(verdict.confidence, 90);
    assert_eq!(verdict.banner, Some("OpenSSH_8.2p1 Ubuntu-4ubuntu0.5".to_string()));
}

#[test]
fn test_verdict_from_ssh_fallback_uses_software() {
    let matcher = SignatureMatcher::from_database(SignatureDatabase {
        banner_patterns: vec![],
        http_server_patterns: vec![],
        port_hints: vec![],
    });
    let info = initial_verdict(22, Protocol::TCP, &matcher);
    let banner = parse_ssh_banner("SSH-2.0-dropbear_2019.78\n").unwrap();
    let verdict = verdict_from_ssh(info, &banner, &matcher);
    assert_eq!(verdict.service, Some("dropbear_2019.78".to_string()));
    assert_eq!(verdict.confidence, 80);
    // The recorded banner keeps the separating space even with no comment.
    assert_eq!(verdict.banner, Some("dropbear_2019.78 ".to_string()));
}

#[test]
fn test_verdict_from_greeting_fallback_label() {
    let matcher = SignatureMatcher::from_database(sample_database());
    let info = initial_verdict(21, Protocol::TCP, &matcher);
    let verdict = verdict_from_greeting(
        info,
        ProbeKind::Ftp,
        "220 ftp.example.com ready".to_string(),
        &matcher,
    );
    assert_eq!(verdict.service, Some("FTP".to_string()));
    assert_eq!(verdict.confidence, 70);
    assert_eq!(verdict.banner, Some("220 ftp.example.com ready".to_string()));
}

#[test]
fn test_verdict_from_tls() {
    let matcher = SignatureMatcher::from_database(sample_database());
    let https = initial_verdict(443, Protocol::TCP, &matcher);
    let reply = [0x16u8, 0x03, 0x03, 0x00, 0x31, 0x02];
    let tls = portscan::tls::classify_tls_reply(&reply).unwrap();
    let verdict = verdict_from_tls(https, tls);
    assert_eq!(verdict.service, Some("HTTPS".to_string()));
    assert_eq!(verdict.confidence, 90);
    assert!(verdict.tls_info.is_some());

    let other = initial_verdict(8443, Protocol::TCP, &matcher);
    let tls2 = portscan::tls::classify_tls_reply(&reply).unwrap();
    let verdict2 = verdict_from_tls(other, tls2);
    assert_eq!(verdict2.service, Some("TLS (port 8443)".to_string()));
    assert_eq!(verdict2.confidence, 80);
}

#[test]
fn test_verdict_from_http_with_signature_and_version() {
    // The HTTP response of the specification parses, and the matcher
    // extracts product and version through the capture group.
    let matcher = SignatureMatcher::from_database(sample_database());
    let info = initial_verdict(80, Protocol::TCP, &matcher);
    let response = parse_http_response(
        "HTTP/1.1 200 OK\r\nServer: nginx/1.18.0\r\nContent-Type: text/html\r\n\r\n",
    )
    .unwrap();
    let verdict = verdict_from_http(info, &response, &matcher);
    assert_eq!(verdict.service, Some("nginx".to_string()));
    assert_eq!(verdict.version, Some("1.18.0".to_string()));
    assert_eq!(verdict.confidence, 90);
    assert_eq!(verdict.banner, Some("HTTP/1.1 200 OK".to_string()));
}

#[test]
fn test_verdict_from_http_without_server_header() {
    let matcher = SignatureMatcher::from_database(sample_database());
    let info = initial_verdict(8080, Protocol::TCP, &matcher);
    let response = parse_http_response("HTTP/1.1 204 No Content\r\n\r\n").unwrap();
    let verdict = verdict_from_http(info, &response, &matcher);
    assert_eq!(verdict.service, Some("HTTP".to_string()));
    assert_eq!(verdict.confidence, 60);
}

#[test]
fn test_finalize_labels_unknown() {
    let matcher = SignatureMatcher::from_database(sample_database());
    let bare = initial_verdict(4444, Protocol::TCP, &matcher);
    let closed = finalize_verdict(bare);
    assert_eq!(closed.service, Some("unknown".to_string()));
    assert_eq!(closed.confidence, 10);
    // A verdict that already carries a service is left alone.
    let hinted = initial_verdict(22, Protocol::TCP, &matcher);
    let kept = finalize_verdict(hinted);
    assert_eq!(kept.service, Some("ssh".to_string()));
    assert_eq!(kept.confidence, 30);
}

#[test]
fn test_confidence_monotonic_on_match() {
    // A signature-confirmed verdict is never less confident than the
    // port-hint fallback (30) nor the protocol fallbacks (60-80).
    let matcher = SignatureMatcher::from_database(sample_database());
    let info = initial_verdict(22, Protocol::TCP, &matcher);
    let hint_confidence = info.confidence;
    let banner = parse_ssh_banner("SSH-2.0-OpenSSH_8.2p1\r\n").unwrap();
    let verdict = verdict_from_ssh(info, &banner, &matcher);
    assert!(verdict.confidence >= hint_confidence);
    assert!(verdict.confidence >= 70);
}

#[test]
fn test_port_tasks_cover_range_once() {
    let tasks = port_tasks(10, 15);
    assert_eq!(tasks, vec![10, 11, 12, 13, 14, 15]);
    let single = port_tasks(443, 443);
    assert_eq!(single, vec![443]);
}

#[test]
fn test_scan_state_lifecycle_and_progress() {
    let mut state = ScanState::new("127.0.0.1".to_string(), 1, 6, 4, 50, 100);
    assert_eq!(state.get_progress(), (0, 6));
    assert!(!state.is_running());
    state.start();
    assert!(state.is_running());
    assert!(!state.is_complete());
    for _ in 0..6 {
        state.increment_scanned();
    }
    assert_eq!(state.get_progress(), (6, 6));
    state.complete();
    assert!(!state.is_running());
    assert!(state.is_complete());
}

#[test]
fn test_simulated_scan_one_open_http_port() {
    // A range where only one port answers (HTTP): exactly one verdict is
    // recorded, and the progress counter still reaches the range size.
    let matcher = SignatureMatcher::from_database(sample_database());
    let mut state = ScanState::new("127.0.0.1".to_string(), 8000, 8004, 2, 50, 100);
    state.start();
    let open_port: u16 = 8002;
    for port in port_tasks(8000, 8004) {
        let tcp_open = port == open_port;
        if tcp_open {
            let info = initial_verdict(port, Protocol::TCP, &matcher);
            let response = parse_http_response("HTTP/1.1 200 OK\r\n\r\n").unwrap();
            let verdict = verdict_from_http(info, &response, &matcher);
            state.add_result(verdict);
        }
        state.increment_scanned();
    }
    state.complete();
    let results = state.get_results();
    assert_eq!(results.len(), 1);
    assert_eq!(results[0].port, open_port);
    assert_eq!(results[0].service, Some("HTTP".to_string()));
    assert_eq!(state.get_progress(), (5, 5));
}

#[test]
fn test_display_full_line() {
    let info = ServiceInfo::new(80, Protocol::TCP, PortState::Open)
        .with_service("nginx".to_string(), 90)
        .with_version("1.18.0".to_string())
        .with_banner("HTTP/1.1 200 OK".to_string());
    assert_eq!(info.display_service(), "nginx v1.18.0");
    assert_eq!(
        info.display_full(),
        "TCP Port 80 (OPEN) - nginx v1.18.0 | Banner: HTTP/1.1 200 OK [confidence: 90%]"
    );
    let bare = ServiceInfo::new(53, Protocol::UDP, PortState::Filtered);
    assert_eq!(bare.display_full(), "UDP Port 53 (FILTERED) - unknown");
}
