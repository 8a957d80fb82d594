//! The well-known-port service name table.

use vstd::prelude::*;

verus! {

/// The service name conventionally associated with a well-known port.
pub open spec fn spec_service_name(port: u16) -> Seq<char> {
    if port == 21 {
        "FTP"@
    } else if port == 22 {
        "SSH"@
    } else if port == 23 {
        "TELNET"@
    } else if port == 25 {
        "SMTP"@
    } else if port == 53 {
        "DNS"@
    } else if port == 80 {
        "HTTP"@
    } else if port == 110 {
        "POP3"@
    } else if port == 143 {
        "IMAP"@
    } else if port == 443 {
        "HTTPS"@
    } else if port == 445 {
        "SMB"@
    } else if port == 3306 {
        "MySQL"@
    } else if port == 5432 {
        "PostgreSQL"@
    } else if port == 6379 {
        "Redis"@
    } else if port == 27017 {
        "MongoDB"@
    } else {
        "unknown"@
    }
}

/// Looks up the conventional service name for a well-known port.
pub fn service_name(port: u16) -> (r: &'static str)
    ensures
        r@ == spec_service_name(port),
{
    match port {
        21 => "FTP",
        22 => "SSH",
        23 => "TELNET",
        25 => "SMTP",
        53 => "DNS",
        80 => "HTTP",
        110 => "POP3",
        143 => "IMAP",
        443 => "HTTPS",
        445 => "SMB",
        3306 => "MySQL",
        5432 => "PostgreSQL",
        6379 => "Redis",
        27017 => "MongoDB",
        _ => "unknown",
    }
}

} // verus!
