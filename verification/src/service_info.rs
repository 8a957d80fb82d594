//! The per-port verdict record: transport, reachability state, best-guess
//! service, optional version and banner, coarse TLS information, and a
//! confidence score.
//!
//! Confidence is kept as an integer number of percent in `0..=100` (the
//! well-formedness invariant `wf`); `100` stands for full confidence.

use vstd::prelude::*;
use crate::text::spec_decimal;
use crate::text::decimal_string;

verus! {

/// The text `display_full` prints for a transport.
pub open spec fn spec_protocol_name(p: Protocol) -> Seq<char> {
    match p {
        Protocol::TCP => "TCP"@,
        Protocol::UDP => "UDP"@,
    }
}

/// The text `display_full` prints for a reachability state.
pub open spec fn spec_state_name(s: PortState) -> Seq<char> {
    match s {
        PortState::Open => "OPEN"@,
        PortState::Filtered => "FILTERED"@,
    }
}

/// Transport over which a port was scanned.
#[derive(Debug, Clone, Copy, PartialEq, Eq, Structural)]
pub enum Protocol {
    TCP,
    UDP,
}

impl Protocol {
    /// The transport's display name.
    pub fn name(&self) -> (r: &'static str)
        ensures
            r@ == spec_protocol_name(*self),
    {
        match self {
            Protocol::TCP => "TCP",
            Protocol::UDP => "UDP",
        }
    }
}

/// Reachability outcome for a scanned port.
#[derive(Debug, Clone, Copy, PartialEq, Eq, Structural)]
pub enum PortState {
    Open,
    Filtered,
}

impl PortState {
    /// The state's display name.
    pub fn name(&self) -> (r: &'static str)
        ensures
            r@ == spec_state_name(*self),
    {
        match self {
            PortState::Open => "OPEN",
            PortState::Filtered => "FILTERED",
        }
    }
}

/// Coarse TLS detection result; the certificate fields are deliberate
/// placeholders, since no TLS handshake beyond detection is performed.
#[derive(Debug)]
pub struct TlsInfo {
    pub subject: String,
    pub issuer: String,
    pub sans: Vec<String>,
}

/// Mathematical model of a `TlsInfo`.
pub struct TlsInfoV {
    pub subject: Seq<char>,
    pub issuer: Seq<char>,
    pub sans: Seq<Seq<char>>,
}

impl View for TlsInfo {
    type V = TlsInfoV;

    open spec fn view(&self) -> TlsInfoV {
        TlsInfoV { subject: self.subject@, issuer: self.issuer@, sans: self.sans.deep_view() }
    }
}

impl Clone for TlsInfo {
    fn clone(&self) -> (r: Self)
        ensures
            r@ == self@,
    {
        let mut sans: Vec<String> = Vec::new();
        let mut i: usize = 0;
        while i < self.sans.len()
            invariant
                i <= self.sans.len(),
                sans.deep_view() == self.sans@.take(i as int).map_values(|s: String| s@),
            decreases self.sans.len() - i,
        {
            sans.push(self.sans[i].clone());
            proof {
                assert(self.sans@.take(i + 1int).map_values(|s: String| s@)
                    =~= self.sans@.take(i as int).map_values(|s: String| s@).push(
                    self.sans@[i as int]@,
                ));
            }
            i += 1;
        }
        proof {
            assert(self.sans@.take(self.sans@.len() as int) =~= self.sans@);
            assert(sans.deep_view() =~= self.sans.deep_view());
        }
        TlsInfo { subject: self.subject.clone(), issuer: self.issuer.clone(), sans }
    }
}

/// The fingerprint verdict for one scanned port.
#[derive(Debug)]
pub struct ServiceInfo {
    pub port: u16,
    pub protocol: Protocol,
    pub state: PortState,
    pub service: Option<String>,
    pub version: Option<String>,
    pub banner: Option<String>,
    pub tls_info: Option<TlsInfo>,
    pub confidence: u8,
}

/// Mathematical model of a `ServiceInfo`.
pub struct ServiceInfoV {
    pub port: u16,
    pub protocol: Protocol,
    pub state: PortState,
    pub service: Option<Seq<char>>,
    pub version: Option<Seq<char>>,
    pub banner: Option<Seq<char>>,
    pub tls_info: Option<TlsInfoV>,
    pub confidence: u8,
}

impl ServiceInfoV {
    /// A verdict is well formed when its confidence is a percentage.
    pub open spec fn wf(self) -> bool {
        self.confidence <= 100
    }
}

impl View for ServiceInfo {
    type V = ServiceInfoV;

    open spec fn view(&self) -> ServiceInfoV {
        ServiceInfoV {
            port: self.port,
            protocol: self.protocol,
            state: self.state,
            service: self.service.deep_view(),
            version: self.version.deep_view(),
            banner: self.banner.deep_view(),
            tls_info: match self.tls_info {
                Some(ref t) => Some(t@),
                None => None,
            },
            confidence: self.confidence,
        }
    }
}

impl DeepView for ServiceInfo {
    type V = ServiceInfoV;

    open spec fn deep_view(&self) -> ServiceInfoV {
        self@
    }
}

impl Clone for ServiceInfo {
    fn clone(&self) -> (r: Self)
        ensures
            r@ == self@,
    {
        ServiceInfo {
            port: self.port,
            protocol: self.protocol,
            state: self.state,
            service: clone_opt_string(&self.service),
            version: clone_opt_string(&self.version),
            banner: clone_opt_string(&self.banner),
            tls_info: match self.tls_info {
                Some(ref t) => Some(t.clone()),
                None => None,
            },
            confidence: self.confidence,
        }
    }
}

/// Clones an optional string, preserving its contents exactly.
pub fn clone_opt_string(s: &Option<String>) -> (r: Option<String>)
    ensures
        r.deep_view() == s.deep_view(),
{
    match s {
        Some(v) => Some(v.clone()),
        None => None,
    }
}

impl ServiceInfo {
    /// A fresh record with no service, version, banner or TLS data, confidence 0.
    pub fn new(port: u16, protocol: Protocol, state: PortState) -> (r: Self)
        ensures
            r@ == (ServiceInfoV {
                port,
                protocol,
                state,
                service: None,
                version: None,
                banner: None,
                tls_info: None,
                confidence: 0,
            }),
            r@.wf(),
    {
        ServiceInfo {
            port,
            protocol,
            state,
            service: None,
            version: None,
            banner: None,
            tls_info: None,
            confidence: 0,
        }
    }

    /// Records a service label together with its confidence.
    pub fn with_service(self, service: String, confidence: u8) -> (r: Self)
        requires
            confidence <= 100,
        ensures
            r@ == (ServiceInfoV { service: Some(service@), confidence, ..self@ }),
            r@.wf(),
    {
        let mut s = self;
        s.service = Some(service);
        s.confidence = confidence;
        s
    }

    /// Records a version string extracted from a banner or signature match.
    pub fn with_version(self, version: String) -> (r: Self)
        ensures
            r@ == (ServiceInfoV { version: Some(version@), ..self@ }),
    {
        let mut s = self;
        s.version = Some(version);
        s
    }

    /// Records the raw banner text the probe observed.
    pub fn with_banner(self, banner: String) -> (r: Self)
        ensures
            r@ == (ServiceInfoV { banner: Some(banner@), ..self@ }),
    {
        let mut s = self;
        s.banner = Some(banner);
        s
    }

    /// Records coarse TLS detection data.
    pub fn with_tls_info(self, tls_info: TlsInfo) -> (r: Self)
        ensures
            r@ == (ServiceInfoV { tls_info: Some(tls_info@), ..self@ }),
    {
        let mut s = self;
        s.tls_info = Some(tls_info);
        s
    }

    /// Writes the service label and version for display.
    pub fn display_service(&self) -> (r: String)
        ensures
            r@ == spec_display_service(self@),
    {
        let mut out = match &self.service {
            Some(s) => s.clone(),
            None => String::from_str("unknown"),
        };
        match &self.version {
            Some(v) => {
                out.append(" v");
                out.append(v.as_str());
            },
            None => {},
        }
        out
    }

    /// Writes the whole verdict on one line: transport, port, state, the
    /// service label, and — where present — the banner, the coarse TLS
    /// data and the confidence percentage.
    pub fn display_full(&self) -> (r: String)
        ensures
            r@ == spec_display_full(self@),
    {
        let mut out = String::from_str(self.protocol.name());
        out.append(" Port ");
        out.append(decimal_string(self.port).as_str());
        out.append(" (");
        out.append(self.state.name());
        out.append(") - ");
        out.append(self.display_service().as_str());
        match &self.banner {
            Some(b) => {
                out.append(" | Banner: ");
                out.append(b.as_str());
            },
            None => {},
        }
        match &self.tls_info {
            Some(t) => {
                out.append(" | TLS: ");
                out.append(t.subject.as_str());
                out.append(" (issued by ");
                out.append(t.issuer.as_str());
                out.append(")");
            },
            None => {},
        }
        if self.confidence > 0 {
            out.append(" [confidence: ");
            out.append(decimal_string(self.confidence as u16).as_str());
            out.append("%]");
        }
        out
    }
}

/// The display text for the service half of a record: the service label
/// (or `unknown`), then `v` and the version when one is known.
pub open spec fn spec_display_service(v: ServiceInfoV) -> Seq<char> {
    let svc = match v.service {
        Some(s) => s,
        None => "unknown"@,
    };
    match v.version {
        Some(ver) => svc + " v"@ + ver,
        None => svc,
    }
}

/// The display text for a whole verdict.
pub open spec fn spec_display_full(v: ServiceInfoV) -> Seq<char> {
    let head = spec_protocol_name(v.protocol) + " Port "@ + spec_decimal(v.port as nat) + " ("@
        + spec_state_name(v.state) + ") - "@ + spec_display_service(v);
    let with_banner = match v.banner {
        Some(b) => head + " | Banner: "@ + b,
        None => head,
    };
    let with_tls = match v.tls_info {
        Some(t) => with_banner + " | TLS: "@ + t.subject + " (issued by "@ + t.issuer + ")"@,
        None => with_banner,
    };
    if v.confidence > 0 {
        with_tls + " [confidence: "@ + spec_decimal(v.confidence as nat) + "%]"@
    } else {
        with_tls
    }
}

} // verus!
