//! Greeting-first protocols (FTP, SMTP, POP3, IMAP): these servers speak
//! first, so a probe just reads and keeps the first non-empty line of what
//! arrived. The network read happens outside the library; `parse_greeting`
//! is the part that decides what the greeting was.

use vstd::prelude::*;
use crate::text::char_index;
use crate::text::find_char;
use crate::text::trim_spec;
use crate::text::trim_str;

verus! {

/// What `parse_greeting` returns: the trimmed first line of the raw text,
/// or nothing when that line is empty.
pub open spec fn spec_parse_greeting(s: Seq<char>) -> Option<Seq<char>> {
    let line = trim_spec(s.take(char_index(s, '\n') as int));
    if line.len() > 0 {
        Some(line)
    } else {
        None
    }
}

/// Extracts the greeting line from the raw text a server sent on connect.
pub fn parse_greeting(text: &str) -> (r: Option<String>)
    ensures
        r.deep_view() == spec_parse_greeting(text@),
{
    let j = find_char(text, '\n');
    let line = trim_str(text.substring_char(0, j));
    proof {
        assert(text@.subrange(0, j as int) =~= text@.take(j as int));
    }
    if line.unicode_len() > 0 {
        Some(String::from_str(line))
    } else {
        None
    }
}

/// Whether a port number makes an SMTP probe worth attempting.
pub fn is_likely_smtp_port(port: u16) -> (r: bool)
    ensures
        r == (port == 25 || port == 465 || port == 587),
{
    port == 25 || port == 465 || port == 587
}

/// Whether a port number makes an FTP probe worth attempting.
pub fn is_likely_ftp_port(port: u16) -> (r: bool)
    ensures
        r == (port == 21),
{
    port == 21
}

/// Whether a port number makes a POP3 probe worth attempting.
pub fn is_likely_pop3_port(port: u16) -> (r: bool)
    ensures
        r == (port == 110 || port == 995),
{
    port == 110 || port == 995
}

/// Whether a port number makes an IMAP probe worth attempting.
pub fn is_likely_imap_port(port: u16) -> (r: bool)
    ensures
        r == (port == 143 || port == 993),
{
    port == 143 || port == 993
}

} // verus!
