//! Coarse TLS detection: a fixed, minimal TLS 1.2 ClientHello record and the
//! classification of whatever the server sent back. A leading handshake
//! record-type byte (0x16) confirms a TLS responder; any other non-empty
//! reply is a weaker signal; silence is no detection. The certificate fields
//! of the result are deliberate placeholders: no certificate is parsed.

use vstd::prelude::*;
use crate::service_info::TlsInfo;
use crate::service_info::TlsInfoV;

verus! {

/// The TLS handshake record-type byte.
pub const TLS_HANDSHAKE_BYTE: u8 = 0x16;

/// The bytes of the fixed ClientHello: a TLS 1.2 hello with one cipher
/// suite, a zero random, no session id, null compression and no extensions.
pub open spec fn spec_client_hello() -> Seq<u8> {
    seq![
        0x16u8, 0x03u8, 0x01u8, 0x00u8, 0x3eu8,
        0x01u8, 0x00u8, 0x00u8, 0x3au8,
        0x03u8, 0x03u8,
        0x00u8, 0x00u8, 0x00u8, 0x00u8, 0x00u8, 0x00u8, 0x00u8, 0x00u8,
        0x00u8, 0x00u8, 0x00u8, 0x00u8, 0x00u8, 0x00u8, 0x00u8, 0x00u8,
        0x00u8, 0x00u8, 0x00u8, 0x00u8, 0x00u8, 0x00u8, 0x00u8, 0x00u8,
        0x00u8, 0x00u8, 0x00u8, 0x00u8, 0x00u8, 0x00u8, 0x00u8, 0x00u8,
        0x00u8,
        0x00u8, 0x02u8,
        0x00u8, 0x3cu8,
        0x01u8, 0x00u8,
        0x00u8, 0x00u8,
    ]
}

/// Builds the fixed ClientHello used for detection.
pub fn create_simple_client_hello() -> (r: Vec<u8>)
    ensures
        r@ == spec_client_hello(),
{
    let r: Vec<u8> = vec![
        // record header: handshake, version TLS 1.0 for compatibility, length 62
        0x16, 0x03, 0x01, 0x00, 0x3e,
        // handshake header: ClientHello, length 58
        0x01, 0x00, 0x00, 0x3a,
        // client version TLS 1.2
        0x03, 0x03,
        // 32 bytes of zero random
        0x00, 0x00, 0x00, 0x00, 0x00, 0x00, 0x00, 0x00,
        0x00, 0x00, 0x00, 0x00, 0x00, 0x00, 0x00, 0x00,
        0x00, 0x00, 0x00, 0x00, 0x00, 0x00, 0x00, 0x00,
        0x00, 0x00, 0x00, 0x00, 0x00, 0x00, 0x00, 0x00,
        // empty session id
        0x00,
        // one cipher suite: TLS_RSA_WITH_AES_128_CBC_SHA256
        0x00, 0x02, 0x00, 0x3c,
        // null compression only
        0x01, 0x00,
        // no extensions
        0x00, 0x00,
    ];
    proof {
        assert(r@ =~= spec_client_hello());
    }
    r
}

/// What `classify_tls_reply` returns for a reply of `n` observed bytes.
pub open spec fn spec_classify_tls(reply: Seq<u8>) -> Option<TlsInfoV> {
    if reply.len() > 5 && reply[0] == TLS_HANDSHAKE_BYTE {
        Some(
            TlsInfoV {
                subject: "TLS Service Detected"@,
                issuer: "certificate not parsed"@,
                sans: Seq::empty(),
            },
        )
    } else if reply.len() > 0 {
        Some(
            TlsInfoV {
                subject: "Possible TLS Service"@,
                issuer: "Non-standard response"@,
                sans: Seq::empty(),
            },
        )
    } else {
        None
    }
}

/// Classifies the raw bytes a server sent back after the ClientHello.
pub fn classify_tls_reply(reply: &[u8]) -> (r: Option<TlsInfo>)
    ensures
        match r {
            Some(t) => spec_classify_tls(reply@) == Some(t@),
            None => spec_classify_tls(reply@) is None,
        },
{
    if reply.len() > 5 && reply[0] == TLS_HANDSHAKE_BYTE {
        let t = TlsInfo {
            subject: String::from_str("TLS Service Detected"),
            issuer: String::from_str("certificate not parsed"),
            sans: Vec::new(),
        };
        proof {
            assert(t@.sans =~= Seq::<Seq<char>>::empty());
        }
        Some(t)
    } else if reply.len() > 0 {
        let t = TlsInfo {
            subject: String::from_str("Possible TLS Service"),
            issuer: String::from_str("Non-standard response"),
            sans: Vec::new(),
        };
        proof {
            assert(t@.sans =~= Seq::<Seq<char>>::empty());
        }
        Some(t)
    } else {
        None
    }
}

/// Whether a port number makes a TLS probe worth attempting.
pub fn is_likely_tls_port(port: u16) -> (r: bool)
    ensures
        r == (port == 443 || port == 465 || port == 587 || port == 636 || port == 993 || port
            == 995 || port == 8443),
{
    port == 443 || port == 465 || port == 587 || port == 636 || port == 993 || port == 995
        || port == 8443
}

} // verus!
