//! Verified core of a concurrent TCP/UDP port scanner with service
//! fingerprinting.
//!
//! The library holds everything the scanner decides or computes: banner and
//! HTTP-response parsing, signature matching against a pattern database,
//! port-based probe eligibility, the fingerprint orchestration rules, and the
//! shared scan-job bookkeeping. Network sockets, threads and the control UI
//! live outside the library and hand it plain values.

pub mod fingerprint;
pub mod http;
pub mod scanner;
pub mod service_info;
pub mod signatures;
pub mod smtp_ftp;
pub mod ssh;
pub mod text;
pub mod tls;
pub mod util;
pub mod web_state;
