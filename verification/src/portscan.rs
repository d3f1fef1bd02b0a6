//! The log-pattern port probe: recognizing, in a captured output line, the
//! common "listening on <host>:<port>" phrasings and extracting the port.
//!
//! The scan is fixed and deterministic: the line is case-folded (ASCII), the
//! known patterns are tried in a fixed order, and for the first pattern that
//! occurs in the line the first colon followed by a digit after that
//! occurrence supplies the port, read as a decimal run no larger than the
//! largest TCP port.

use vstd::prelude::*;
use vstd::string::StrSliceExecFns;

verus! {

/// ASCII case folding of one character.
pub open spec fn spec_lower_char(c: char) -> char {
    if 'A' <= c && c <= 'Z' {
        ((c as u32) + 32) as char
    } else {
        c
    }
}

/// ASCII case folding of a whole line.
pub open spec fn spec_lower(s: Seq<char>) -> Seq<char> {
    Seq::new(s.len(), |i: int| spec_lower_char(s[i]))
}

/// Whether `n` occurs in `h` starting at position `i`.
pub open spec fn spec_match_at(h: Seq<char>, n: Seq<char>, i: int) -> bool {
    &&& 0 <= i
    &&& i + n.len() <= h.len()
    &&& forall|j: int| 0 <= j < n.len() ==> h[i + j] == n[j]
}

/// The first occurrence of `n` in `h` at or after `from`.
pub open spec fn spec_find(h: Seq<char>, n: Seq<char>, from: int) -> Option<int>
    decreases h.len() - from
        when 0 <= from
{
    if from + n.len() > h.len() {
        None
    } else if spec_match_at(h, n, from) {
        Some(from)
    } else {
        spec_find(h, n, from + 1)
    }
}

/// A decimal digit.
pub open spec fn spec_is_digit(c: char) -> bool {
    '0' <= c && c <= '9'
}

/// The first position at or after `from` holding a colon followed by a digit.
pub open spec fn spec_find_colon_digit(h: Seq<char>, from: int) -> Option<int>
    decreases h.len() - from
        when 0 <= from
{
    if from >= h.len() {
        None
    } else if h[from] == ':' && from + 1 < h.len() && spec_is_digit(h[from + 1]) {
        Some(from)
    } else {
        spec_find_colon_digit(h, from + 1)
    }
}

/// The value of the digit run starting at `i`, folded onto `acc`; `None` as
/// soon as the value would exceed the largest TCP port.
pub open spec fn spec_take_digits(h: Seq<char>, i: int, acc: int) -> Option<int>
    decreases h.len() - i
        when 0 <= i <= h.len()
{
    if i < h.len() && spec_is_digit(h[i]) {
        let acc2 = acc * 10 + (h[i] as int - '0' as int);
        if acc2 > 65535 {
            None
        } else {
            spec_take_digits(h, i + 1, acc2)
        }
    } else {
        Some(acc)
    }
}

/// The port read right after position `start` in the folded line: at the
/// first colon-digit from there, the digit run's value.
pub open spec fn spec_scan_after(h: Seq<char>, start: int) -> Option<int> {
    match spec_find_colon_digit(h, start) {
        None => None,
        Some(j) => spec_take_digits(h, j + 1, 0),
    }
}

/// The port the pattern `p` yields on the folded line `h`, if it occurs.
pub open spec fn spec_try_pattern(h: Seq<char>, p: Seq<char>) -> Option<int> {
    match spec_find(h, p, 0) {
        None => None,
        Some(i) => spec_scan_after(h, i + p.len()),
    }
}

/// The recognized phrasings, in the order they are tried.
pub open spec fn spec_patterns() -> Seq<Seq<char>> {
    seq![
        "listening on"@,
        "listening at"@,
        "running on"@,
        "running at"@,
        "started on"@,
        "started at"@,
        "serving on"@,
        "serving at"@,
        "bound to"@,
        "available on"@,
        "available at"@,
    ]
}

/// The first pattern, from position `k` of the list on, that yields a port on
/// the folded line `h`.
pub open spec fn spec_scan_patterns(h: Seq<char>, k: int) -> Option<int>
    decreases spec_patterns().len() - k
        when 0 <= k
{
    if k >= spec_patterns().len() {
        None
    } else {
        match spec_try_pattern(h, spec_patterns()[k]) {
            Some(p) => Some(p),
            None => spec_scan_patterns(h, k + 1),
        }
    }
}

/// The port the log probe reads from one output line.
pub open spec fn spec_port_of(s: Seq<char>) -> Option<int> {
    spec_scan_patterns(spec_lower(s), 0)
}

/// The characters of a string, in order.
pub fn chars_of(s: &str) -> (r: Vec<char>)
    ensures
        r@ == s@,
{
    let n = s.unicode_len();
    let mut r: Vec<char> = Vec::new();
    let mut i: usize = 0;
    while i < n
        invariant
            i <= n,
            n == s@.len(),
            r@ == s@.subrange(0, i as int),
        decreases n - i,
    {
        r.push(s.get_char(i));
        proof {
            assert(r@ =~= s@.subrange(0, i as int + 1));
        }
        i = i + 1;
    }
    proof {
        assert(r@ =~= s@);
    }
    r
}

/// ASCII case folding of a character vector.
fn lower_vec(v: &Vec<char>) -> (r: Vec<char>)
    ensures
        r@ == spec_lower(v@),
{
    let n = v.len();
    let mut r: Vec<char> = Vec::new();
    let mut i: usize = 0;
    while i < n
        invariant
            i <= n,
            n == v@.len(),
            r@.len() == i,
            forall|j: int| 0 <= j < i ==> r@[j] == spec_lower_char(v@[j]),
        decreases n - i,
    {
        let c = v[i];
        let low = if 'A' <= c && c <= 'Z' {
            (((c as u32) + 32) as u8) as char
        } else {
            c
        };
        r.push(low);
        i = i + 1;
    }
    proof {
        assert(r@ =~= spec_lower(v@));
    }
    r
}

/// Whether `n` occurs in `h` at position `i`.
fn match_at(h: &Vec<char>, n: &Vec<char>, i: usize) -> (r: bool)
    requires
        i + n@.len() <= h@.len(),
    ensures
        r == spec_match_at(h@, n@, i as int),
{
    let m = n.len();
    let hlen = h.len();
    let mut j: usize = 0;
    while j < m
        invariant
            j <= m,
            m == n@.len(),
            hlen == h@.len(),
            i + m <= hlen,
            forall|t: int| 0 <= t < j ==> h@[i + t] == n@[t],
        decreases m - j,
    {
        if h[i + j] != n[j] {
            return false;
        }
        j = j + 1;
    }
    true
}

/// The first occurrence of `n` in `h` at or after `from`.
fn find_from(h: &Vec<char>, n: &Vec<char>, from: usize) -> (r: Option<usize>)
    ensures
        match r {
            Some(i) => from <= i && i + n@.len() <= h@.len() && spec_find(h@, n@, from as int)
                == Some(i as int),
            None => spec_find(h@, n@, from as int) is None,
        },
{
    let hn = h.len();
    let nn = n.len();
    if nn > hn || from > hn - nn {
        return None;
    }
    let mut i = from;
    while i <= hn - nn
        invariant
            from <= i,
            nn <= hn,
            i <= hn - nn + 1,
            hn == h@.len(),
            nn == n@.len(),
            spec_find(h@, n@, from as int) == spec_find(h@, n@, i as int),
        decreases hn - nn + 1 - i,
    {
        if match_at(h, n, i) {
            return Some(i);
        }
        i = i + 1;
    }
    None
}

/// The first colon-followed-by-digit at or after `from`.
fn find_colon_digit(h: &Vec<char>, from: usize) -> (r: Option<usize>)
    ensures
        match r {
            Some(j) => spec_find_colon_digit(h@, from as int) == Some(j as int) && j + 1
                < h@.len(),
            None => spec_find_colon_digit(h@, from as int) is None,
        },
{
    let hn = h.len();
    if from >= hn {
        return None;
    }
    let mut i = from;
    while i < hn
        invariant
            from <= i,
            hn == h@.len(),
            spec_find_colon_digit(h@, from as int) == spec_find_colon_digit(h@, i as int),
        decreases hn - i,
    {
        if h[i] == ':' && i + 1 < hn {
            let d = h[i + 1];
            if '0' <= d && d <= '9' {
                return Some(i);
            }
        }
        i = i + 1;
    }
    None
}

/// The value of the digit run starting at `i`, if it stays within the range
/// of TCP ports.
fn take_digits(h: &Vec<char>, i: usize) -> (r: Option<u32>)
    requires
        i <= h@.len(),
    ensures
        match r {
            Some(v) => spec_take_digits(h@, i as int, 0) == Some(v as int) && v <= 65535,
            None => spec_take_digits(h@, i as int, 0) is None,
        },
{
    let hn = h.len();
    let mut j = i;
    let mut acc: u32 = 0;
    while j < hn
        invariant
            i <= j <= hn,
            hn == h@.len(),
            acc <= 65535,
            spec_take_digits(h@, i as int, 0) == spec_take_digits(h@, j as int, acc as int),
        decreases hn - j,
    {
        let c = h[j];
        if c < '0' || c > '9' {
            return Some(acc);
        }
        let d = (c as u32) - 48;
        let acc2 = acc * 10 + d;
        if acc2 > 65535 {
            return None;
        }
        acc = acc2;
        j = j + 1;
    }
    Some(acc)
}

/// The recognized phrasings, in the order they are tried.
fn pattern_list() -> (r: Vec<&'static str>)
    ensures
        r@.len() == spec_patterns().len(),
        forall|k: int| 0 <= k < r@.len() ==> r@[k]@ == spec_patterns()[k],
{
    let mut v: Vec<&'static str> = Vec::new();
    v.push("listening on");
    v.push("listening at");
    v.push("running on");
    v.push("running at");
    v.push("started on");
    v.push("started at");
    v.push("serving on");
    v.push("serving at");
    v.push("bound to");
    v.push("available on");
    v.push("available at");
    proof {
        assert forall|k: int| 0 <= k < v@.len() implies v@[k]@ == spec_patterns()[k] by {
            if k == 0 {
                assert(v@[0]@ == spec_patterns()[0]);
            } else if k == 1 {
                assert(v@[1]@ == spec_patterns()[1]);
            } else if k == 2 {
                assert(v@[2]@ == spec_patterns()[2]);
            } else if k == 3 {
                assert(v@[3]@ == spec_patterns()[3]);
            } else if k == 4 {
                assert(v@[4]@ == spec_patterns()[4]);
            } else if k == 5 {
                assert(v@[5]@ == spec_patterns()[5]);
            } else if k == 6 {
                assert(v@[6]@ == spec_patterns()[6]);
            } else if k == 7 {
                assert(v@[7]@ == spec_patterns()[7]);
            } else if k == 8 {
                assert(v@[8]@ == spec_patterns()[8]);
            } else if k == 9 {
                assert(v@[9]@ == spec_patterns()[9]);
            } else {
                assert(v@[10]@ == spec_patterns()[10]);
            }
        }
    }
    v
}

/// The port the log probe reads from one output line, if any: the first
/// pattern occurring in the case-folded line, the first colon-digit after
/// that occurrence, the digit run's value if it is a valid TCP port.
pub fn port_of_line(line: &str) -> (r: Option<u16>)
    ensures
        match r {
            Some(p) => spec_port_of(line@) == Some(p as int),
            None => spec_port_of(line@) is None,
        },
{
    let cs = chars_of(line);
    let low = lower_vec(&cs);
    let patterns = pattern_list();
    let np = patterns.len();
    let mut k: usize = 0;
    while k < np
        invariant
            k <= np,
            np == spec_patterns().len(),
            low@ == spec_lower(line@),
            forall|t: int| 0 <= t < patterns@.len() ==> patterns@[t]@ == spec_patterns()[t],
            patterns@.len() == np,
            spec_scan_patterns(low@, 0) == spec_scan_patterns(low@, k as int),
        decreases np - k,
    {
        let pat = chars_of(patterns[k]);
        let found = match find_from(&low, &pat, 0) {
            Some(i) => {
                let start = i + pat.len();
                match find_colon_digit(&low, start) {
                    Some(j) => take_digits(&low, j + 1),
                    None => None,
                }
            },
            None => None,
        };
        proof {
            assert(pat@ == spec_patterns()[k as int]);
        }
        match found {
            Some(v) => {
                proof {
                    assert(spec_try_pattern(low@, spec_patterns()[k as int]) == Some(v as int));
                }
                return Some(v as u16);
            },
            None => {
                proof {
                    assert(spec_try_pattern(low@, spec_patterns()[k as int]) is None);
                }
            },
        }
        k = k + 1;
    }
    None
}

} // verus!
