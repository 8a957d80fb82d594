//! HTTP response parsing: the status line, the headers up to the first blank
//! line, and the `Server` header looked up case-insensitively (the last
//! occurrence before the blank line wins). The request and the socket live
//! outside the library.

use vstd::prelude::*;
use crate::text::char_index;
use crate::text::find_char;
use crate::text::icase_eq;
use crate::text::eq_ignore_case;
use crate::text::split_lines;
use crate::text::str_lines;
use crate::text::trim_spec;
use crate::text::trim_str;

verus! {

/// The parsed pieces of one HTTP response.
#[derive(Debug)]
pub struct HttpResponse {
    pub status_line: String,
    pub server: Option<String>,
    pub headers: Vec<(String, String)>,
    pub body_preview: String,
}

/// Mathematical model of an `HttpResponse`.
pub struct HttpResponseV {
    pub status_line: Seq<char>,
    pub server: Option<Seq<char>>,
    pub headers: Seq<(Seq<char>, Seq<char>)>,
    pub body_preview: Seq<char>,
}

impl View for HttpResponse {
    type V = HttpResponseV;

    open spec fn view(&self) -> HttpResponseV {
        HttpResponseV {
            status_line: self.status_line@,
            server: self.server.deep_view(),
            headers: self.headers.deep_view(),
            body_preview: self.body_preview@,
        }
    }
}

/// Whether a header line contains a colon.
pub open spec fn has_colon(line: Seq<char>) -> bool {
    char_index(line, ':') < line.len()
}

/// The trimmed text before the first colon.
pub open spec fn hdr_key(line: Seq<char>) -> Seq<char> {
    trim_spec(line.take(char_index(line, ':') as int))
}

/// The trimmed text after the first colon.
pub open spec fn hdr_val(line: Seq<char>) -> Seq<char> {
    trim_spec(line.skip(char_index(line, ':') as int + 1))
}

/// The key/value pairs of the header lines, in order, up to the first blank
/// line; lines without a colon are skipped.
pub open spec fn spec_header_list(lines: Seq<Seq<char>>) -> Seq<(Seq<char>, Seq<char>)>
    decreases lines.len(),
{
    if lines.len() == 0 || lines[0].len() == 0 {
        Seq::empty()
    } else {
        let rest = spec_header_list(lines.skip(1));
        if has_colon(lines[0]) {
            seq![(hdr_key(lines[0]), hdr_val(lines[0]))] + rest
        } else {
            rest
        }
    }
}

/// The value of the last `Server` header (case-insensitive) before the first
/// blank line, if any.
pub open spec fn spec_server(lines: Seq<Seq<char>>) -> Option<Seq<char>>
    decreases lines.len(),
{
    if lines.len() == 0 || lines[0].len() == 0 {
        None
    } else {
        let rest = spec_server(lines.skip(1));
        if rest is Some {
            rest
        } else if has_colon(lines[0]) && icase_eq(hdr_key(lines[0]), "server"@) {
            Some(hdr_val(lines[0]))
        } else {
            None
        }
    }
}

/// What `parse_http_response` returns: nothing for empty input; otherwise
/// the first line as status line, the headers before the first blank line,
/// and the last `Server` header value among them.
pub open spec fn spec_parse_http(s: Seq<char>) -> Option<HttpResponseV> {
    let lines = split_lines(s);
    if lines.len() == 0 {
        None
    } else {
        Some(
            HttpResponseV {
                status_line: lines[0],
                server: spec_server(lines.skip(1)),
                headers: spec_header_list(lines.skip(1)),
                body_preview: Seq::empty(),
            },
        )
    }
}

/// Parses raw HTTP response text into its status line and headers.
pub fn parse_http_response(response: &str) -> (r: Option<HttpResponse>)
    ensures
        match r {
            Some(h) => spec_parse_http(response@) == Some(h@),
            None => spec_parse_http(response@) is None,
        },
{
    let lines = str_lines(response);
    if lines.len() == 0 {
        return None;
    }
    let status_line = lines[0].clone();
    let ghost big: Seq<Seq<char>> = lines.deep_view();
    let ghost tail: Seq<Seq<char>> = big.skip(1);
    let mut headers: Vec<(String, String)> = Vec::new();
    let mut server: Option<String> = None;
    let mut i: usize = 1;
    while i < lines.len() && lines[i].unicode_len() != 0
        invariant
            1 <= i <= lines.len(),
            big == lines.deep_view(),
            tail == big.skip(1),
            spec_header_list(tail) == headers.deep_view() + spec_header_list(big.skip(i as int)),
            spec_server(tail) == (if spec_server(big.skip(i as int)) is Some {
                spec_server(big.skip(i as int))
            } else {
                server.deep_view()
            }),
        decreases lines.len() - i,
    {
        let ghost cur: Seq<Seq<char>> = big.skip(i as int);
        proof {
            assert(cur[0] == big[i as int]);
            assert(cur.skip(1) =~= big.skip(i as int + 1));
        }
        let line = &lines[i];
        let n = line.unicode_len();
        let c = find_char(line, ':');
        if c < n {
            let key = String::from_str(trim_str(line.substring_char(0, c)));
            let value = String::from_str(trim_str(line.substring_char(c + 1, n)));
            proof {
                assert(line@.subrange(0, c as int) =~= line@.take(c as int));
                assert(line@.subrange(c + 1int, n as int) =~= line@.skip(c as int + 1));
            }
            if eq_ignore_case(key.as_str(), "server") {
                server = Some(value.clone());
            }
            let ghost old_headers = headers.deep_view();
            headers.push((key, value));
            proof {
                assert(headers.deep_view() =~= old_headers.push(
                    (hdr_key(cur[0]), hdr_val(cur[0])),
                ));
                assert(old_headers.push((hdr_key(cur[0]), hdr_val(cur[0])))
                    + spec_header_list(cur.skip(1)) =~= old_headers + spec_header_list(cur));
            }
        } else {
            proof {
                assert(headers.deep_view() + spec_header_list(cur.skip(1)) =~= headers.deep_view()
                    + spec_header_list(cur));
            }
        }
        i += 1;
    }
    proof {
        if i < lines.len() {
            assert(big.skip(i as int)[0] == big[i as int]);
            assert(big[i as int].len() == 0);
        } else {
            assert(big.skip(i as int).len() == 0);
        }
        assert(headers.deep_view() + spec_header_list(big.skip(i as int))
            =~= headers.deep_view());
        assert(big[0] == lines[0]@);
    }
    Some(HttpResponse { status_line, server, headers, body_preview: String::new() })
}

/// The server software string reported by an HTTP response, if any.
pub fn extract_server_info(response: &HttpResponse) -> (r: Option<String>)
    ensures
        r.deep_view() == response@.server,
{
    match &response.server {
        Some(s) => Some(s.clone()),
        None => None,
    }
}

} // verus!
