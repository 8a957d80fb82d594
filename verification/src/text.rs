//! Character-level text helpers shared by the banner and header parsers:
//! first-occurrence search, line splitting, whitespace trimming, and exact or
//! case-insensitive comparison, each with its mathematical counterpart.

use vstd::prelude::*;

verus! {

/// The whitespace characters trimmed from banner lines (ASCII whitespace).
pub open spec fn is_space(c: char) -> bool {
    c == ' ' || c == '\t' || c == '\r' || c == '\n' || c == '\u{b}' || c == '\u{c}'
}

/// Executable test for `is_space`.
pub fn is_space_char(c: char) -> (b: bool)
    ensures
        b == is_space(c),
{
    c == ' ' || c == '\t' || c == '\r' || c == '\n' || c == '\u{b}' || c == '\u{c}'
}

/// Index of the first occurrence of `c` in `s`, or `s.len()` if absent.
pub open spec fn char_index(s: Seq<char>, c: char) -> nat
    decreases s.len(),
{
    if s.len() == 0 {
        0
    } else if s[0] == c {
        0
    } else {
        1 + char_index(s.skip(1), c)
    }
}

/// A left-to-right scan that stopped at `i` pins down `char_index`.
pub proof fn lemma_char_index_from_scan(s: Seq<char>, c: char, i: int)
    requires
        0 <= i <= s.len(),
        forall|j: int| 0 <= j < i ==> s[j] != c,
        i == s.len() || s[i] == c,
    ensures
        char_index(s, c) == i,
    decreases i,
{
    if s.len() == 0 {
    } else if s[0] == c {
        assert(i == 0);
    } else {
        assert(s[0] != c);
        assert(i >= 1) by {
            if i == 0 {
                assert(s[0] == c);
            }
        }
        assert(forall|j: int| 0 <= j < i - 1 ==> s.skip(1)[j] == s[j + 1]);
        assert(i - 1 == s.skip(1).len() || s.skip(1)[i - 1] == c);
        lemma_char_index_from_scan(s.skip(1), c, i - 1);
    }
}

/// First index at or after which `c` occurs in `s`, or `s.len()` if absent.
pub fn find_char(s: &str, c: char) -> (i: usize)
    ensures
        i == char_index(s@, c),
        i <= s@.len(),
        i < s@.len() ==> s@[i as int] == c,
        forall|j: int| 0 <= j < i ==> s@[j] != c,
{
    let n = s.unicode_len();
    let mut i: usize = 0;
    while i < n && s.get_char(i) != c
        invariant
            i <= n,
            n == s@.len(),
            forall|j: int| 0 <= j < i ==> s@[j] != c,
        decreases n - i,
    {
        i += 1;
    }
    proof {
        lemma_char_index_from_scan(s@, c, i as int);
    }
    i
}

/// `s` with leading space characters removed.
pub open spec fn trim_start_spec(s: Seq<char>) -> Seq<char>
    decreases s.len(),
{
    if s.len() > 0 && is_space(s[0]) {
        trim_start_spec(s.skip(1))
    } else {
        s
    }
}

/// `s` with trailing space characters removed.
pub open spec fn trim_end_spec(s: Seq<char>) -> Seq<char>
    decreases s.len(),
{
    if s.len() > 0 && is_space(s[s.len() - 1]) {
        trim_end_spec(s.take(s.len() - 1))
    } else {
        s
    }
}

/// `s` with leading and trailing space characters removed.
pub open spec fn trim_spec(s: Seq<char>) -> Seq<char> {
    trim_end_spec(trim_start_spec(s))
}

/// A scan that found only spaces before `a` and a non-space (or the end)
/// at `a` pins down `trim_start_spec`.
pub proof fn lemma_trim_start_scan(s: Seq<char>, a: int)
    requires
        0 <= a <= s.len(),
        forall|j: int| 0 <= j < a ==> is_space(s[j]),
        a == s.len() || !is_space(s[a]),
    ensures
        trim_start_spec(s) == s.skip(a),
    decreases a,
{
    if a == 0 {
        assert(s.skip(0) =~= s);
        if s.len() > 0 && is_space(s[0]) {
            assert(!is_space(s[0]));
        }
    } else {
        assert(is_space(s[0]));
        assert(forall|j: int| 0 <= j < a - 1 ==> s.skip(1)[j] == s[j + 1]);
        assert(a - 1 == s.skip(1).len() || s.skip(1)[a - 1] == s[a]);
        lemma_trim_start_scan(s.skip(1), a - 1);
        assert(s.skip(1).skip(a - 1) =~= s.skip(a));
    }
}

/// A scan that found only spaces from `b` on and a non-space (or the
/// start) just before `b` pins down `trim_end_spec`.
pub proof fn lemma_trim_end_scan(s: Seq<char>, b: int)
    requires
        0 <= b <= s.len(),
        forall|j: int| b <= j < s.len() ==> is_space(s[j]),
        b == 0 || !is_space(s[b - 1]),
    ensures
        trim_end_spec(s) == s.take(b),
    decreases s.len() - b,
{
    if b == s.len() {
        assert(s.take(b) =~= s);
        if s.len() > 0 && is_space(s[s.len() - 1]) {
            assert(!is_space(s[b - 1]));
        }
    } else {
        assert(is_space(s[s.len() - 1]));
        let t = s.take(s.len() - 1);
        assert(forall|j: int| 0 <= j < t.len() ==> t[j] == s[j]);
        lemma_trim_end_scan(t, b);
        assert(t.take(b) =~= s.take(b));
    }
}

/// Removes leading and trailing ASCII whitespace.
pub fn trim_str<'a>(s: &'a str) -> (r: &'a str)
    ensures
        r@ == trim_spec(s@),
{
    let n = s.unicode_len();
    let mut a: usize = 0;
    while a < n && is_space_char(s.get_char(a))
        invariant
            a <= n,
            n == s@.len(),
            forall|j: int| 0 <= j < a ==> is_space(s@[j]),
        decreases n - a,
    {
        a += 1;
    }
    let mut b: usize = n;
    while b > a && is_space_char(s.get_char(b - 1))
        invariant
            a <= b <= n,
            n == s@.len(),
            forall|j: int| b <= j < n ==> is_space(s@[j]),
        decreases b,
    {
        b -= 1;
    }
    proof {
        lemma_trim_start_scan(s@, a as int);
        let t = s@.skip(a as int);
        assert(forall|j: int| 0 <= j < t.len() ==> t[j] == s@[j + a]);
        lemma_trim_end_scan(t, b - a);
        assert(t.take(b - a) =~= s@.subrange(a as int, b as int));
    }
    s.substring_char(a, b)
}

/// `s` with a single trailing carriage return removed, as `str::lines` does
/// to each line.
pub open spec fn strip_cr(s: Seq<char>) -> Seq<char> {
    if s.len() > 0 && s[s.len() - 1] == '\r' {
        s.take(s.len() - 1)
    } else {
        s
    }
}

/// The lines of `s`, split at `'\n'` with a trailing `'\r'` removed from
/// each, and no empty trailing line — the behaviour of `str::lines`.
pub open spec fn split_lines(s: Seq<char>) -> Seq<Seq<char>>
    decreases s.len(),
{
    if s.len() == 0 {
        Seq::empty()
    } else {
        let i = char_index(s, '\n');
        if i < s.len() {
            seq![strip_cr(s.take(i as int))] + split_lines(s.skip(i as int + 1))
        } else {
            seq![strip_cr(s)]
        }
    }
}

/// The first line of `s`, or nothing when `s` is empty.
pub open spec fn first_line_spec(s: Seq<char>) -> Option<Seq<char>> {
    if s.len() == 0 {
        None
    } else {
        let i = char_index(s, '\n');
        if i < s.len() {
            Some(strip_cr(s.take(i as int)))
        } else {
            Some(strip_cr(s))
        }
    }
}

/// Extracts the first line of `s`, as `str::lines().next()` does.
pub fn first_line(s: &str) -> (r: Option<String>)
    ensures
        r.deep_view() == first_line_spec(s@),
{
    let n = s.unicode_len();
    if n == 0 {
        return None;
    }
    let j = find_char(s, '\n');
    let line_end = if j > 0 && s.get_char(j - 1) == '\r' {
        j - 1
    } else {
        j
    };
    proof {
        let raw = if j < n {
            s@.take(j as int)
        } else {
            s@
        };
        assert(raw.len() == j);
        if line_end < j {
            assert(raw[j - 1] == s@[j - 1]);
            assert(raw.take(j - 1) =~= s@.subrange(0, j - 1));
        } else {
            if j > 0 {
                assert(raw[j - 1] == s@[j - 1]);
            }
            assert(raw =~= s@.subrange(0, j as int));
        }
    }
    let line = String::from_str(s.substring_char(0, line_end));
    Some(line)
}

/// Splits `s` into its lines, as `str::lines` does.
pub fn str_lines(s: &str) -> (r: Vec<String>)
    ensures
        r.deep_view() == split_lines(s@),
    decreases s@.len(),
{
    let n = s.unicode_len();
    let mut r: Vec<String> = Vec::new();
    if n == 0 {
        proof {
            assert(r.deep_view() =~= split_lines(s@));
        }
        return r;
    }
    let j = find_char(s, '\n');
    let line_end = if j > 0 && s.get_char(j - 1) == '\r' {
        j - 1
    } else {
        j
    };
    proof {
        let raw = if j < n {
            s@.take(j as int)
        } else {
            s@
        };
        assert(raw.len() == j);
        if line_end < j {
            assert(raw[j - 1] == s@[j - 1]);
            assert(raw.take(j - 1) =~= s@.subrange(0, j - 1));
        } else {
            if j > 0 {
                assert(raw[j - 1] == s@[j - 1]);
            }
            assert(raw =~= s@.subrange(0, j as int));
        }
    }
    let first = String::from_str(s.substring_char(0, line_end));
    proof {
        assert(first@ == strip_cr(if j < n {
            s@.take(j as int)
        } else {
            s@
        }));
    }
    r.push(first);
    if j < n {
        let mut rest = str_lines(s.substring_char(j + 1, n));
        proof {
            assert(s@.subrange(j + 1int, n as int) =~= s@.skip(j + 1int));
        }
        r.append(&mut rest);
    }
    proof {
        assert(r.deep_view() =~= split_lines(s@));
    }
    r
}

/// The code point of `c` with an upper-case ASCII letter folded to lower
/// case.
pub open spec fn lower_code(c: char) -> int {
    if 'A' <= c && c <= 'Z' {
        c as int + 32
    } else {
        c as int
    }
}

/// Case-insensitive equality on ASCII letters, as
/// `str::eq_ignore_ascii_case`.
pub open spec fn icase_eq(a: Seq<char>, b: Seq<char>) -> bool {
    a.len() == b.len() && (forall|i: int| 0 <= i < a.len() ==> lower_code(a[i]) == lower_code(b[i]))
}

fn lower_u32(x: u32) -> (r: u32)
    ensures
        r == x + (if 65 <= x <= 90 {
            32int
        } else {
            0int
        }),
{
    if 65 <= x && x <= 90 {
        x + 32
    } else {
        x
    }
}

/// Compares two strings up to ASCII case.
pub fn eq_ignore_case(a: &str, b: &str) -> (r: bool)
    ensures
        r == icase_eq(a@, b@),
{
    let na = a.unicode_len();
    let nb = b.unicode_len();
    if na != nb {
        return false;
    }
    let mut i: usize = 0;
    while i < na
        invariant
            i <= na,
            na == a@.len(),
            na == b@.len(),
            forall|j: int| 0 <= j < i ==> lower_code(a@[j]) == lower_code(b@[j]),
        decreases na - i,
    {
        let ca = a.get_char(i);
        let cb = b.get_char(i);
        if lower_u32(ca as u32) != lower_u32(cb as u32) {
            return false;
        }
        i += 1;
    }
    true
}

/// The decimal digit character for `d`.
pub open spec fn digit_char(d: nat) -> char {
    if d == 0 {
        '0'
    } else if d == 1 {
        '1'
    } else if d == 2 {
        '2'
    } else if d == 3 {
        '3'
    } else if d == 4 {
        '4'
    } else if d == 5 {
        '5'
    } else if d == 6 {
        '6'
    } else if d == 7 {
        '7'
    } else if d == 8 {
        '8'
    } else {
        '9'
    }
}

/// The decimal digits of `n`, most significant first, with no leading zeros
/// (a single `'0'` for zero).
pub open spec fn spec_decimal(n: nat) -> Seq<char>
    decreases n,
{
    if n < 10 {
        seq![digit_char(n)]
    } else {
        spec_decimal(n / 10).push(digit_char(n % 10))
    }
}

fn digit_str(d: u16) -> (r: &'static str)
    requires
        d < 10,
    ensures
        r@ == seq![digit_char(d as nat)],
{
    match d {
        0 => {
            proof {
                reveal_strlit("0");
            }
            let r = "0";
            assert(r@ =~= seq![digit_char(d as nat)]);
            r
        },
        1 => {
            proof {
                reveal_strlit("1");
            }
            let r = "1";
            assert(r@ =~= seq![digit_char(d as nat)]);
            r
        },
        2 => {
            proof {
                reveal_strlit("2");
            }
            let r = "2";
            assert(r@ =~= seq![digit_char(d as nat)]);
            r
        },
        3 => {
            proof {
                reveal_strlit("3");
            }
            let r = "3";
            assert(r@ =~= seq![digit_char(d as nat)]);
            r
        },
        4 => {
            proof {
                reveal_strlit("4");
            }
            let r = "4";
            assert(r@ =~= seq![digit_char(d as nat)]);
            r
        },
        5 => {
            proof {
                reveal_strlit("5");
            }
            let r = "5";
            assert(r@ =~= seq![digit_char(d as nat)]);
            r
        },
        6 => {
            proof {
                reveal_strlit("6");
            }
            let r = "6";
            assert(r@ =~= seq![digit_char(d as nat)]);
            r
        },
        7 => {
            proof {
                reveal_strlit("7");
            }
            let r = "7";
            assert(r@ =~= seq![digit_char(d as nat)]);
            r
        },
        8 => {
            proof {
                reveal_strlit("8");
            }
            let r = "8";
            assert(r@ =~= seq![digit_char(d as nat)]);
            r
        },
        _ => {
            proof {
                reveal_strlit("9");
            }
            let r = "9";
            assert(r@ =~= seq![digit_char(d as nat)]);
            r
        },
    }
}

/// Writes `n` in decimal.
pub fn decimal_string(n: u16) -> (r: String)
    ensures
        r@ == spec_decimal(n as nat),
    decreases n,
{
    if n < 10 {
        String::from_str(digit_str(n))
    } else {
        let mut s = decimal_string(n / 10);
        s.append(digit_str(n % 10));
        s
    }
}

/// Exact string equality, stated over the views.
pub fn str_eq(a: &str, b: &str) -> (r: bool)
    ensures
        r == (a@ == b@),
{
    let na = a.unicode_len();
    let nb = b.unicode_len();
    if na != nb {
        return false;
    }
    let mut i: usize = 0;
    while i < na
        invariant
            i <= na,
            na == a@.len(),
            na == b@.len(),
            forall|j: int| 0 <= j < i ==> a@[j] == b@[j],
        decreases na - i,
    {
        if a.get_char(i) != b.get_char(i) {
            return false;
        }
        i += 1;
    }
    proof {
        assert(a@ =~= b@);
    }
    true
}

} // verus!
