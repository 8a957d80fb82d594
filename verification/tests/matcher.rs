use portscan::signatures::BannerPattern;
use portscan::signatures::HttpServerPattern;
use portscan::signatures::SignatureDatabase;
use portscan::signatures::SignatureMatcher;

fn sample_database() -> SignatureDatabase {
    SignatureDatabase {
        banner_patterns: vec![
            BannerPattern {
                pattern: "OpenSSH".to_string(),
                service: "ssh".to_string(),
                product: "OpenSSH".to_string(),
                confidence: 90,
            },
            BannerPattern {
                pattern: "SSH".to_string(),
                service: "ssh".to_string(),
                product: "GenericSSH".to_string(),
                confidence: 80,
            },
            BannerPattern {
                pattern: "Postfix".to_string(),
                service: "smtp".to_string(),
                product: "Postfix".to_string(),
                confidence: 85,
            },
        ],
        http_server_patterns: vec![
            HttpServerPattern {
                pattern: "nginx/([0-9.]+)".to_string(),
                service: "http".to_string(),
                product: "nginx".to_string(),
                confidence: 90,
                version_group: Some(1),
            },
            HttpServerPattern {
                pattern: "Apache".to_string(),
                service: "http".to_string(),
                product: "Apache httpd".to_string(),
                confidence: 85,
                version_group: None,
            },
        ],
        port_hints: vec![(22, "ssh".to_string()), (80, "http".to_string())],
    }
}

#[test]
fn test_banner_matching() {
    let matcher = SignatureMatcher::from_database(sample_database());

    let ssh_banner = "SSH-2.0-OpenSSH_8.2p1 Ubuntu-4ubuntu0.5";
    let result = matcher.match_banner(ssh_banner);
    assert!(result.is_some());
    let m = result.unwrap();
    assert_eq!(m.service, "ssh");
    assert_eq!(m.product, "OpenSSH");
}

#[test]
fn test_http_server_matching() {
    let matcher = SignatureMatcher::from_database(sample_database());

    let nginx_header = "nginx/1.18.0";
    let result = matcher.match_http_server(nginx_header);
    assert!(result.is_some());
    let m = result.unwrap();
    assert_eq!(m.service, "http");
    assert_eq!(m.product, "nginx");
    assert_eq!(m.version, Some("1.18.0".to_string()));
}

#[test]
fn test_priority_first_match_wins() {
    // Both the OpenSSH rule and the generic SSH rule match this banner;
    // the earlier rule must win.
    let matcher = SignatureMatcher::from_database(sample_database());
    let m = matcher.match_banner("SSH-2.0-OpenSSH_8.2p1").unwrap();
    assert_eq!(m.product, "OpenSSH");
    assert_eq!(m.confidence, 90);
    // A banner that only the generic rule matches falls through to it.
    let m2 = matcher.match_banner("SSH-2.0-dropbear_2019.78").unwrap();
    assert_eq!(m2.product, "GenericSSH");
}

#[test]
fn test_no_match_yields_none() {
    let matcher = SignatureMatcher::from_database(sample_database());
    assert!(matcher.match_banner("220 unremarkable greeting").is_none());
    assert!(matcher.match_http_server("obscurehttpd/0.1").is_none());
}

#[test]
fn test_http_match_without_version_group() {
    let matcher = SignatureMatcher::from_database(sample_database());
    let m = matcher.match_http_server("Apache").unwrap();
    assert_eq!(m.product, "Apache httpd");
    assert_eq!(m.version, None);
}

#[test]
fn test_bad_pattern_is_dropped_not_fatal() {
    let db = SignatureDatabase {
        banner_patterns: vec![
            BannerPattern {
                pattern: "(unclosed".to_string(),
                service: "broken".to_string(),
                product: "broken".to_string(),
                confidence: 99,
            },
            BannerPattern {
                pattern: "unclosed".to_string(),
                service: "ok".to_string(),
                product: "survivor".to_string(),
                confidence: 50,
            },
        ],
        http_server_patterns: vec![],
        port_hints: vec![],
    };
    let matcher = SignatureMatcher::from_database(db);
    // The invalid expression was dropped; the valid one still matches.
    let m = matcher.match_banner("quite unclosed indeed").unwrap();
    assert_eq!(m.product, "survivor");
}

#[test]
fn test_reload_idempotent() {
    // Two matchers built from equal databases answer every query alike.
    let m1 = SignatureMatcher::from_database(sample_database());
    let m2 = SignatureMatcher::from_database(sample_database());
    for text in ["SSH-2.0-OpenSSH_8.2p1", "220 Postfix ready", "nothing here"] {
        let a = m1.match_banner(text);
        let b = m2.match_banner(text);
        assert_eq!(a.is_some(), b.is_some());
        if let (Some(x), Some(y)) = (a, b) {
            assert_eq!(x.service, y.service);
            assert_eq!(x.product, y.product);
            assert_eq!(x.version, y.version);
            assert_eq!(x.confidence, y.confidence);
        }
    }
    for header in ["nginx/1.18.0", "Apache", "none"] {
        let a = m1.match_http_server(header);
        let b = m2.match_http_server(header);
        assert_eq!(a.is_some(), b.is_some());
        if let (Some(x), Some(y)) = (a, b) {
            assert_eq!(x.product, y.product);
            assert_eq!(x.version, y.version);
            assert_eq!(x.confidence, y.confidence);
        }
    }
}

#[test]
fn test_get_port_hint() {
    let matcher = SignatureMatcher::from_database(sample_database());
    assert_eq!(matcher.get_port_hint(22), Some("ssh".to_string()));
    assert_eq!(matcher.get_port_hint(80), Some("http".to_string()));
    assert_eq!(matcher.get_port_hint(4444), None);
}
