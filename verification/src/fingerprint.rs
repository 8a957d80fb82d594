//! The fingerprint orchestrator's decision rules.
//!
//! Per open port the scanner starts from a low-confidence port-number hint
//! (confidence 30), then tries protocol probes in a fixed priority order —
//! SSH, FTP, SMTP, POP3, IMAP, TLS, HTTP — stopping at the first probe that
//! yields data. Each probe's raw output is re-matched against the signature
//! database; a signature hit overrides the verdict with the matched
//! product, confidence and version, otherwise a protocol-dependent fallback
//! confidence (60–90) is assigned. A port where nothing answered is labelled
//! `unknown` at confidence 10, never left empty.
//!
//! The network reads happen outside the library; `probe_plan` says which
//! probes to attempt in which order, and the `verdict_from_*` functions
//! turn each probe's outcome into the verdict.

use vstd::prelude::*;
use crate::http::HttpResponse;
use crate::http::HttpResponseV;
use crate::service_info::PortState;
use crate::service_info::Protocol;
use crate::service_info::ServiceInfo;
use crate::service_info::ServiceInfoV;
use crate::service_info::TlsInfo;
use crate::service_info::TlsInfoV;
use crate::signatures::BannerPatternV;
use crate::signatures::HttpServerPatternV;
use crate::signatures::MatchV;
use crate::signatures::SignatureMatcher;
use crate::signatures::lemma_banner_match_confidence;
use crate::signatures::lemma_http_match_confidence;
use crate::signatures::spec_hint;
use crate::signatures::spec_match_banner;
use crate::signatures::spec_match_http;
use crate::ssh::SshBanner;
use crate::ssh::SshBannerV;
use crate::text::spec_decimal;
use crate::text::decimal_string;
use crate::text::str_eq;

verus! {

/// One protocol probe, in the priority order the orchestrator tries them.
#[derive(Debug, Clone, Copy, PartialEq, Eq, Structural)]
pub enum ProbeKind {
    Ssh,
    Ftp,
    Smtp,
    Pop3,
    Imap,
    Tls,
    Http,
}

/// The verdict before any probe ran: reachability by transport (UDP can
/// only be `Filtered`), and the port-number hint at confidence 30 if the
/// database has one.
pub open spec fn spec_initial(
    port: u16,
    protocol: Protocol,
    hints: Seq<(u16, Seq<char>)>,
) -> ServiceInfoV {
    let base = ServiceInfoV {
        port,
        protocol,
        state: if protocol is UDP {
            PortState::Filtered
        } else {
            PortState::Open
        },
        service: None,
        version: None,
        banner: None,
        tls_info: None,
        confidence: 0,
    };
    match spec_hint(hints, port) {
        Some(h) => ServiceInfoV { service: Some(h), confidence: 30, ..base },
        None => base,
    }
}

/// Builds the verdict a port starts from, before any protocol probe.
pub fn initial_verdict(port: u16, protocol: Protocol, matcher: &SignatureMatcher) -> (r:
    ServiceInfo)
    ensures
        r@ == spec_initial(port, protocol, matcher.hints()),
        r@.wf(),
{
    let state = match protocol {
        Protocol::TCP => PortState::Open,
        Protocol::UDP => PortState::Filtered,
    };
    let info = ServiceInfo::new(port, protocol, state);
    match matcher.get_port_hint(port) {
        Some(hint) => info.with_service(hint, 30),
        None => info,
    }
}

/// Whether the current hint names the given service.
pub open spec fn hint_is(hint: Option<Seq<char>>, name: Seq<char>) -> bool {
    match hint {
        Some(h) => h == name,
        None => false,
    }
}

/// The probes worth attempting for a port, in priority order: each protocol
/// is tried when the port is a well-known port for it or the existing hint
/// already names it. Cheap greeting protocols come first, TLS and HTTP
/// last.
pub open spec fn spec_probe_plan(port: u16, hint: Option<Seq<char>>) -> Seq<ProbeKind> {
    let p0 = Seq::<ProbeKind>::empty();
    let p1 = if port == 22 || port == 2222 || hint_is(hint, "ssh"@) {
        p0.push(ProbeKind::Ssh)
    } else {
        p0
    };
    let p2 = if port == 21 || hint_is(hint, "ftp"@) {
        p1.push(ProbeKind::Ftp)
    } else {
        p1
    };
    let p3 = if port == 25 || port == 465 || port == 587 || hint_is(hint, "smtp"@) {
        p2.push(ProbeKind::Smtp)
    } else {
        p2
    };
    let p4 = if port == 110 || port == 995 || hint_is(hint, "pop3"@) {
        p3.push(ProbeKind::Pop3)
    } else {
        p3
    };
    let p5 = if port == 143 || port == 993 || hint_is(hint, "imap"@) {
        p4.push(ProbeKind::Imap)
    } else {
        p4
    };
    let p6 = if port == 443 || port == 465 || port == 587 || port == 636 || port == 993 || port
        == 995 || port == 8443 || hint_is(hint, "https"@) {
        p5.push(ProbeKind::Tls)
    } else {
        p5
    };
    if port == 80 || port == 8080 || port == 8000 || hint_is(hint, "http"@) {
        p6.push(ProbeKind::Http)
    } else {
        p6
    }
}

fn hint_matches(hint: &Option<String>, name: &str) -> (r: bool)
    ensures
        r == hint_is(hint.deep_view(), name@),
{
    match hint {
        Some(h) => str_eq(h.as_str(), name),
        None => false,
    }
}

/// Lists the probes to attempt for this port, given the current hint, in
/// the order the orchestrator must try them.
pub fn probe_plan(port: u16, hint: &Option<String>) -> (r: Vec<ProbeKind>)
    ensures
        r@ == spec_probe_plan(port, hint.deep_view()),
{
    let mut plan: Vec<ProbeKind> = Vec::new();
    if port == 22 || port == 2222 || hint_matches(hint, "ssh") {
        plan.push(ProbeKind::Ssh);
    }
    if port == 21 || hint_matches(hint, "ftp") {
        plan.push(ProbeKind::Ftp);
    }
    if port == 25 || port == 465 || port == 587 || hint_matches(hint, "smtp") {
        plan.push(ProbeKind::Smtp);
    }
    if port == 110 || port == 995 || hint_matches(hint, "pop3") {
        plan.push(ProbeKind::Pop3);
    }
    if port == 143 || port == 993 || hint_matches(hint, "imap") {
        plan.push(ProbeKind::Imap);
    }
    if port == 443 || port == 465 || port == 587 || port == 636 || port == 993 || port == 995
        || port == 8443 || hint_matches(hint, "https") {
        plan.push(ProbeKind::Tls);
    }
    if port == 80 || port == 8080 || port == 8000 || hint_matches(hint, "http") {
        plan.push(ProbeKind::Http);
    }
    proof {
        assert(plan@ =~= spec_probe_plan(port, hint.deep_view()));
    }
    plan
}

/// A signature match written into the record: the matched product becomes
/// the service at the rule's confidence, and the rule's captured version,
/// if any, becomes the version.
pub open spec fn spec_apply_match(info: ServiceInfoV, m: MatchV) -> ServiceInfoV {
    let w = ServiceInfoV { service: Some(m.product), confidence: m.confidence, ..info };
    match m.version {
        Some(v) => ServiceInfoV { version: Some(v), ..w },
        None => w,
    }
}

fn apply_match(info: ServiceInfo, m: crate::signatures::Match) -> (r: ServiceInfo)
    requires
        m@.confidence <= 100,
    ensures
        r@ == spec_apply_match(info@, m@),
{
    let w = info.with_service(m.product, m.confidence);
    match m.version {
        Some(v) => w.with_version(v),
        None => w,
    }
}

/// The banner the SSH verdict records: the software identifier, a space,
/// and the comment (empty when the banner had none).
pub open spec fn spec_full_ssh_banner(b: SshBannerV) -> Seq<char> {
    b.software + " "@ + (match b.comments {
        Some(c) => c,
        None => Seq::<char>::empty(),
    })
}

/// The verdict after a successful SSH probe: the reconstructed banner is
/// matched against the banner rules; a hit overrides service, confidence
/// and version, otherwise the software identifier itself is the service at
/// fallback confidence 80. The banner is recorded either way.
pub open spec fn spec_verdict_ssh(
    info: ServiceInfoV,
    b: SshBannerV,
    rules: Seq<BannerPatternV>,
) -> ServiceInfoV {
    let full = spec_full_ssh_banner(b);
    let w = match spec_match_banner(rules, full) {
        Some(m) => spec_apply_match(info, m),
        None => ServiceInfoV { service: Some(b.software), confidence: 80, ..info },
    };
    ServiceInfoV { banner: Some(full), ..w }
}

/// Turns a parsed SSH banner into the port's verdict.
pub fn verdict_from_ssh(info: ServiceInfo, banner: &SshBanner, matcher: &SignatureMatcher) -> (r:
    ServiceInfo)
    requires
        matcher.wf(),
    ensures
        r@ == spec_verdict_ssh(info@, banner@, matcher.banner_rules()),
        r@.wf(),
{
    let mut full = banner.software.clone();
    full.append(" ");
    match &banner.comments {
        Some(c) => full.append(c.as_str()),
        None => {},
    }
    let w = match matcher.match_banner(full.as_str()) {
        Some(m) => apply_match(info, m),
        None => info.with_service(banner.software.clone(), 80),
    };
    w.with_banner(full)
}

/// The fallback service label for a greeting protocol.
pub open spec fn greeting_label(kind: ProbeKind) -> Seq<char> {
    match kind {
        ProbeKind::Ftp => "FTP"@,
        ProbeKind::Smtp => "SMTP"@,
        ProbeKind::Pop3 => "POP3"@,
        ProbeKind::Imap => "IMAP"@,
        _ => Seq::<char>::empty(),
    }
}

/// The verdict after a greeting-first probe succeeded: the greeting line is
/// recorded as the banner and matched against the banner rules; a hit
/// overrides the verdict, otherwise the protocol's own name is the service
/// at fallback confidence 70.
pub open spec fn spec_verdict_greeting(
    info: ServiceInfoV,
    kind: ProbeKind,
    greeting: Seq<char>,
    rules: Seq<BannerPatternV>,
) -> ServiceInfoV {
    let w = ServiceInfoV { banner: Some(greeting), ..info };
    match spec_match_banner(rules, greeting) {
        Some(m) => spec_apply_match(w, m),
        None => ServiceInfoV { service: Some(greeting_label(kind)), confidence: 70, ..w },
    }
}

/// Turns a greeting line (FTP, SMTP, POP3 or IMAP) into the port's verdict.
pub fn verdict_from_greeting(
    info: ServiceInfo,
    kind: ProbeKind,
    greeting: String,
    matcher: &SignatureMatcher,
) -> (r: ServiceInfo)
    requires
        matcher.wf(),
        kind is Ftp || kind is Smtp || kind is Pop3 || kind is Imap,
    ensures
        r@ == spec_verdict_greeting(info@, kind, greeting@, matcher.banner_rules()),
        r@.wf(),
{
    let matched = matcher.match_banner(greeting.as_str());
    let w = info.with_banner(greeting);
    match matched {
        Some(m) => apply_match(w, m),
        None => {
            let label = match kind {
                ProbeKind::Ftp => "FTP",
                ProbeKind::Smtp => "SMTP",
                ProbeKind::Pop3 => "POP3",
                ProbeKind::Imap => "IMAP",
                _ => "",
            };
            w.with_service(String::from_str(label), 70)
        },
    }
}

/// The service label for a TLS responder on a port other than 443.
pub open spec fn tls_label(port: u16) -> Seq<char> {
    "TLS (port "@ + spec_decimal(port as nat) + ")"@
}

/// The verdict after TLS detection succeeded: the coarse TLS data is
/// recorded; port 443 is labelled HTTPS at confidence 90, any other port a
/// generic TLS service at confidence 80.
pub open spec fn spec_verdict_tls(info: ServiceInfoV, t: TlsInfoV) -> ServiceInfoV {
    let w = ServiceInfoV { tls_info: Some(t), ..info };
    if info.port == 443 {
        ServiceInfoV { service: Some("HTTPS"@), confidence: 90, ..w }
    } else {
        ServiceInfoV { service: Some(tls_label(info.port)), confidence: 80, ..w }
    }
}

/// Turns a TLS detection result into the port's verdict.
pub fn verdict_from_tls(info: ServiceInfo, tls: TlsInfo) -> (r: ServiceInfo)
    ensures
        r@ == spec_verdict_tls(info@, tls@),
        r@.wf(),
{
    let port = info.port;
    let w = info.with_tls_info(tls);
    if port == 443 {
        w.with_service(String::from_str("HTTPS"), 90)
    } else {
        let mut label = String::from_str("TLS (port ");
        label.append(decimal_string(port).as_str());
        label.append(")");
        w.with_service(label, 80)
    }
}

/// The verdict after an HTTP probe succeeded: when the response named a
/// server, that string is matched against the HTTP rules — a hit overrides
/// the verdict, otherwise the service is `HTTP` at confidence 70; without a
/// server header the service is `HTTP` at confidence 60. The status line
/// becomes the banner either way.
pub open spec fn spec_verdict_http(
    info: ServiceInfoV,
    h: HttpResponseV,
    rules: Seq<HttpServerPatternV>,
) -> ServiceInfoV {
    let w = match h.server {
        Some(sv) => match spec_match_http(rules, sv) {
            Some(m) => spec_apply_match(info, m),
            None => ServiceInfoV { service: Some("HTTP"@), confidence: 70, ..info },
        },
        None => ServiceInfoV { service: Some("HTTP"@), confidence: 60, ..info },
    };
    ServiceInfoV { banner: Some(h.status_line), ..w }
}

/// Turns a parsed HTTP response into the port's verdict.
pub fn verdict_from_http(
    info: ServiceInfo,
    response: &HttpResponse,
    matcher: &SignatureMatcher,
) -> (r: ServiceInfo)
    requires
        matcher.wf(),
    ensures
        r@ == spec_verdict_http(info@, response@, matcher.http_rules()),
        r@.wf(),
{
    let w = match &response.server {
        Some(sv) => {
            match matcher.match_http_server(sv.as_str()) {
                Some(m) => apply_match(info, m),
                None => info.with_service(String::from_str("HTTP"), 70),
            }
        },
        None => info.with_service(String::from_str("HTTP"), 60),
    };
    w.with_banner(response.status_line.clone())
}

/// The verdict when no probe yielded anything: a port that answered no
/// protocol keeps its hint, and without one is labelled `unknown` at
/// confidence 10 — never left empty.
pub open spec fn spec_finalize(info: ServiceInfoV) -> ServiceInfoV {
    if info.service is None {
        ServiceInfoV { service: Some("unknown"@), confidence: 10, ..info }
    } else {
        info
    }
}

/// Closes a verdict no probe could improve.
pub fn finalize_verdict(info: ServiceInfo) -> (r: ServiceInfo)
    requires
        info@.wf(),
    ensures
        r@ == spec_finalize(info@),
        r@.wf(),
{
    if info.service.is_none() {
        info.with_service(String::from_str("unknown"), 10)
    } else {
        info
    }
}

/// Confidence monotonicity for banner-based verdicts (SSH and the greeting
/// protocols): when every banner rule carries at least the protocol
/// fallback confidence 70, a signature-confirmed verdict is never less
/// confident than the port-hint fallback 30 nor than the protocol fallback
/// itself.
pub proof fn lemma_banner_verdict_confidence(
    info: ServiceInfoV,
    b: SshBannerV,
    kind: ProbeKind,
    greeting: Seq<char>,
    rules: Seq<BannerPatternV>,
)
    requires
        forall|i: int| 0 <= i < rules.len() ==> #[trigger] rules[i].confidence >= 70,
    ensures
        spec_match_banner(rules, spec_full_ssh_banner(b)) is Some ==> spec_verdict_ssh(
            info,
            b,
            rules,
        ).confidence >= 70 && spec_verdict_ssh(info, b, rules).confidence >= 30,
        spec_match_banner(rules, greeting) is Some ==> spec_verdict_greeting(
            info,
            kind,
            greeting,
            rules,
        ).confidence >= 70 && spec_verdict_greeting(info, kind, greeting, rules).confidence >= 30,
{
    lemma_banner_match_confidence(rules, spec_full_ssh_banner(b), 70);
    lemma_banner_match_confidence(rules, greeting, 70);
}

/// Confidence monotonicity for HTTP verdicts: when every HTTP rule carries
/// at least the no-match fallback confidence 70, a signature-confirmed
/// verdict is never less confident than the port-hint fallback 30, the
/// missing-header fallback 60, nor the no-match fallback 70.
pub proof fn lemma_http_verdict_confidence(
    info: ServiceInfoV,
    h: HttpResponseV,
    rules: Seq<HttpServerPatternV>,
)
    requires
        forall|i: int| 0 <= i < rules.len() ==> #[trigger] rules[i].confidence >= 70,
        h.server is Some,
        spec_match_http(rules, h.server.unwrap()) is Some,
    ensures
        spec_verdict_http(info, h, rules).confidence >= 70,
        spec_verdict_http(info, h, rules).confidence >= 30,
{
    lemma_http_match_confidence(rules, h.server.unwrap(), 70);
}

} // verus!
