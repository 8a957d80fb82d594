//! SSH banner parsing.
//!
//! An SSH server's first line has the form
//! `SSH-<protover>-<softwareid>[ <comments>]`; parsing fails when the line
//! does not start with `SSH-` or has no second hyphen-delimited segment.

use vstd::prelude::*;
use crate::text::char_index;
use crate::text::find_char;
use crate::text::lemma_char_index_from_scan;
use crate::text::trim_spec;
use crate::text::trim_str;

verus! {

/// The parsed fields of an SSH banner line.
#[derive(Debug)]
pub struct SshBanner {
    pub version: String,
    pub software: String,
    pub comments: Option<String>,
}

/// Mathematical model of an `SshBanner`.
pub struct SshBannerV {
    pub version: Seq<char>,
    pub software: Seq<char>,
    pub comments: Option<Seq<char>>,
}

impl View for SshBanner {
    type V = SshBannerV;

    open spec fn view(&self) -> SshBannerV {
        SshBannerV {
            version: self.version@,
            software: self.software@,
            comments: self.comments.deep_view(),
        }
    }
}

/// The trimmed first line of a raw banner text.
pub open spec fn banner_line(s: Seq<char>) -> Seq<char> {
    trim_spec(s.take(char_index(s, '\n') as int))
}

/// Whether a line carries the `SSH-` prefix.
pub open spec fn has_ssh_prefix(line: Seq<char>) -> bool {
    line.len() >= 4 && line[0] == 'S' && line[1] == 'S' && line[2] == 'H' && line[3] == '-'
}

/// What `parse_ssh_banner` returns: the first line is trimmed; it must start
/// with `SSH-`; everything after the first space is the comment; the version
/// runs up to the second hyphen and the software identifier follows it.
pub open spec fn spec_parse_ssh(s: Seq<char>) -> Option<SshBannerV> {
    let line = banner_line(s);
    if !has_ssh_prefix(line) {
        None
    } else {
        let sp = char_index(line, ' ');
        let vp = if sp < line.len() {
            line.take(sp as int)
        } else {
            line
        };
        let comments = if sp < line.len() {
            Some(line.skip(sp as int + 1))
        } else {
            None
        };
        let h = 4 + char_index(vp.skip(4), '-');
        if h < vp.len() {
            Some(
                SshBannerV {
                    version: vp.take(h as int),
                    software: vp.skip(h as int + 1),
                    comments,
                },
            )
        } else {
            None
        }
    }
}

/// Parses one raw SSH banner into its version, software and comment fields.
pub fn parse_ssh_banner(banner: &str) -> (r: Option<SshBanner>)
    ensures
        match r {
            Some(b) => spec_parse_ssh(banner@) == Some(b@),
            None => spec_parse_ssh(banner@) is None,
        },
{
    let j = find_char(banner, '\n');
    let line = trim_str(banner.substring_char(0, j));
    proof {
        assert(banner@.subrange(0, j as int) =~= banner@.take(j as int));
    }
    let n = line.unicode_len();
    if n < 4 {
        return None;
    }
    if !(line.get_char(0) == 'S' && line.get_char(1) == 'S' && line.get_char(2) == 'H'
        && line.get_char(3) == '-') {
        return None;
    }
    let sp = find_char(line, ' ');
    let vp = if sp < n {
        line.substring_char(0, sp)
    } else {
        line
    };
    let comments = if sp < n {
        Some(String::from_str(line.substring_char(sp + 1, n)))
    } else {
        None
    };
    proof {
        if sp < n {
            assert(line@.subrange(0, sp as int) =~= line@.take(sp as int));
            assert(line@.subrange(sp + 1int, n as int) =~= line@.skip(sp as int + 1));
        }
    }
    let vn = vp.unicode_len();
    let mut h: usize = 4;
    while h < vn && vp.get_char(h) != '-'
        invariant
            4 <= h <= vn,
            vn == vp@.len(),
            forall|k: int| 4 <= k < h ==> vp@[k] != '-',
        decreases vn - h,
    {
        h += 1;
    }
    proof {
        let tail = vp@.skip(4);
        assert(forall|k: int| 0 <= k < tail.len() ==> tail[k] == vp@[k + 4]);
        lemma_char_index_from_scan(tail, '-', h - 4int);
    }
    if h == vn {
        return None;
    }
    let version = String::from_str(vp.substring_char(0, h));
    let software = String::from_str(vp.substring_char(h + 1, vn));
    proof {
        assert(vp@.subrange(0, h as int) =~= vp@.take(h as int));
        assert(vp@.subrange(h + 1int, vn as int) =~= vp@.skip(h as int + 1));
    }
    Some(SshBanner { version, software, comments })
}

/// Whether a port number makes an SSH probe worth attempting.
pub fn is_likely_ssh_port(port: u16) -> (r: bool)
    ensures
        r == (port == 22 || port == 2222),
{
    port == 22 || port == 2222
}

} // verus!
