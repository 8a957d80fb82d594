use portscan::http::extract_server_info;
use portscan::http::parse_http_response;
use portscan::smtp_ftp::is_likely_ftp_port;
use portscan::smtp_ftp::is_likely_imap_port;
use portscan::smtp_ftp::is_likely_pop3_port;
use portscan::smtp_ftp::is_likely_smtp_port;
use portscan::smtp_ftp::parse_greeting;
use portscan::ssh::is_likely_ssh_port;
use portscan::ssh::parse_ssh_banner;
use portscan::text::decimal_string;
use portscan::text::first_line;
use portscan::tls::classify_tls_reply;
use portscan::tls::create_simple_client_hello;
use portscan::tls::is_likely_tls_port;
use portscan::util::service_name;

#[test]
fn test_parse_http_response() {
    let response = "HTTP/1.1 200 OK\r\nServer: nginx/1.18.0\r\nContent-Type: text/html\r\n\r\n";
    let parsed = parse_http_response(response).unwrap();
    assert_eq!(parsed.status_line, "HTTP/1.1 200 OK");
    assert_eq!(parsed.server, Some("nginx/1.18.0".to_string()));
}

#[test]
fn test_parse_http_response_headers_and_last_server_wins() {
    let response =
        "HTTP/1.0 404 Not Found\r\nserver: one\r\nX-Odd-Line\r\nSERVER: two\r\n\r\nServer: after-blank\r\n";
    let parsed = parse_http_response(response).unwrap();
    assert_eq!(parsed.status_line, "HTTP/1.0 404 Not Found");
    assert_eq!(parsed.server, Some("two".to_string()));
    assert_eq!(
        parsed.headers,
        vec![
            ("server".to_string(), "one".to_string()),
            ("SERVER".to_string(), "two".to_string()),
        ]
    );
    assert_eq!(parsed.body_preview, "");
}

#[test]
fn test_extract_server_info() {
    let with = parse_http_response("HTTP/1.1 200 OK\r\nServer: caddy\r\n\r\n").unwrap();
    assert_eq!(extract_server_info(&with), Some("caddy".to_string()));
    let without = parse_http_response("HTTP/1.1 200 OK\r\n\r\n").unwrap();
    assert_eq!(extract_server_info(&without), None);
}

#[test]
fn test_parse_http_response_empty_input() {
    assert!(parse_http_response("").is_none());
}

#[test]
fn test_is_likely_smtp_port() {
    assert!(is_likely_smtp_port(25));
    assert!(is_likely_smtp_port(587));
    assert!(!is_likely_smtp_port(80));
}

#[test]
fn test_is_likely_ftp_port() {
    assert!(is_likely_ftp_port(21));
    assert!(!is_likely_ftp_port(22));
}

#[test]
fn test_is_likely_pop3_port() {
    assert!(is_likely_pop3_port(110));
    assert!(is_likely_pop3_port(995));
    assert!(!is_likely_pop3_port(143));
}

#[test]
fn test_is_likely_imap_port() {
    assert!(is_likely_imap_port(143));
    assert!(is_likely_imap_port(993));
    assert!(!is_likely_imap_port(110));
}

#[test]
fn test_parse_ssh_banner() {
    let banner = "SSH-2.0-OpenSSH_8.2p1 Ubuntu-4ubuntu0.5\r\n";
    let parsed = parse_ssh_banner(banner).unwrap();
    assert_eq!(parsed.version, "SSH-2.0");
    assert_eq!(parsed.software, "OpenSSH_8.2p1");
    assert_eq!(parsed.comments, Some("Ubuntu-4ubuntu0.5".to_string()));
}

#[test]
fn test_parse_ssh_banner_no_comments() {
    let banner = "SSH-2.0-dropbear_2019.78\n";
    let parsed = parse_ssh_banner(banner).unwrap();
    assert_eq!(parsed.version, "SSH-2.0");
    assert_eq!(parsed.software, "dropbear_2019.78");
    assert_eq!(parsed.comments, None);
}

#[test]
fn test_parse_ssh_banner_rejects_other_prefix() {
    assert!(parse_ssh_banner("220 ftp.example.com FTP server\r\n").is_none());
    assert!(parse_ssh_banner("").is_none());
}

#[test]
fn test_parse_ssh_banner_needs_second_hyphen() {
    assert!(parse_ssh_banner("SSH-2.0\r\n").is_none());
    assert!(parse_ssh_banner("SSH-\r\n").is_none());
}

#[test]
fn test_is_likely_ssh_port() {
    assert!(is_likely_ssh_port(22));
    assert!(is_likely_ssh_port(2222));
    assert!(!is_likely_ssh_port(80));
}

#[test]
fn test_is_likely_tls_port() {
    assert!(is_likely_tls_port(443));
    assert!(is_likely_tls_port(993));
    assert!(!is_likely_tls_port(80));
    assert!(!is_likely_tls_port(22));
}

#[test]
fn test_parse_greeting_takes_trimmed_first_line() {
    assert_eq!(
        parse_greeting("220 mail.example.com ESMTP Postfix\r\nmore\r\n"),
        Some("220 mail.example.com ESMTP Postfix".to_string())
    );
    assert_eq!(parse_greeting("   \r\n220 late"), None);
    assert_eq!(parse_greeting(""), None);
}

#[test]
fn test_first_line() {
    assert_eq!(first_line("alpha\r\nbeta"), Some("alpha".to_string()));
    assert_eq!(first_line("plain"), Some("plain".to_string()));
    assert_eq!(first_line(""), None);
}

#[test]
fn test_client_hello_shape() {
    let hello = create_simple_client_hello();
    assert_eq!(hello.len(), 52);
    assert_eq!(hello[0], 0x16);
    assert_eq!(hello[3], 0x00);
    assert_eq!(hello[4], 0x3e);
    assert_eq!(hello[9], 0x03);
    assert_eq!(hello[10], 0x03);
    assert_eq!(hello[46], 0x00);
    assert_eq!(hello[47], 0x3c);
    assert_eq!(hello[50], 0x00);
    assert_eq!(hello[51], 0x00);
}

#[test]
fn test_classify_tls_reply() {
    let confirmed = classify_tls_reply(&[0x16, 0x03, 0x03, 0x00, 0x31, 0x02]).unwrap();
    assert_eq!(confirmed.subject, "TLS Service Detected");
    let weak = classify_tls_reply(&[0x48, 0x54]).unwrap();
    assert_eq!(weak.subject, "Possible TLS Service");
    assert_eq!(weak.issuer, "Non-standard response");
    assert!(classify_tls_reply(&[]).is_none());
}

#[test]
fn test_service_name_table() {
    assert_eq!(service_name(22), "SSH");
    assert_eq!(service_name(80), "HTTP");
    assert_eq!(service_name(6379), "Redis");
    assert_eq!(service_name(9999), "unknown");
}

#[test]
fn test_decimal_string() {
    assert_eq!(decimal_string(0), "0");
    assert_eq!(decimal_string(7), "7");
    assert_eq!(decimal_string(8443), "8443");
    assert_eq!(decimal_string(65535), "65535");
}
