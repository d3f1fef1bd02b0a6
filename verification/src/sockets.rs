//! The OS-inspection port probe's reading of the socket table.
//!
//! The probe polls the operating system's table of TCP sockets, whose textual
//! form lists one socket per row: a slot number, the local address as
//! hexadecimal ip:port, the remote address, a hexadecimal state, queue and
//! timer fields, the owner, and the socket's inode number. A listening socket
//! is matched to a process by that inode, which the process's descriptor
//! links name as `socket:[<inode>]`. Everything here is the pure reading of
//! those formats; the embedding does the polling and the directory walks.

use vstd::prelude::*;

verus! {

/// Field-separating whitespace in a socket-table row.
pub open spec fn spec_is_ws(c: char) -> bool {
    c == ' ' || c == '\t'
}

/// The first position at or after `i` that is not field whitespace.
pub open spec fn spec_skip_ws(s: Seq<char>, i: int) -> int
    decreases s.len() - i
        when 0 <= i <= s.len()
{
    if i < s.len() && spec_is_ws(s[i]) {
        spec_skip_ws(s, i + 1)
    } else {
        i
    }
}

/// The first position at or after `i` that ends the current field.
pub open spec fn spec_skip_field(s: Seq<char>, i: int) -> int
    decreases s.len() - i
        when 0 <= i <= s.len()
{
    if i < s.len() && !spec_is_ws(s[i]) {
        spec_skip_field(s, i + 1)
    } else {
        i
    }
}

/// Where the whitespace-separated field number `k` starts.
pub open spec fn spec_field_start(s: Seq<char>, k: nat) -> int
    decreases k,
{
    if k == 0 {
        spec_skip_ws(s, 0)
    } else {
        spec_skip_ws(s, spec_skip_field(s, spec_field_start(s, (k - 1) as nat)))
    }
}

/// The whitespace-separated field number `k`; empty when the row has fewer
/// fields.
pub open spec fn spec_field(s: Seq<char>, k: nat) -> Seq<char> {
    s.subrange(spec_field_start(s, k), spec_skip_field(s, spec_field_start(s, k)))
}

/// The value of one hexadecimal digit, or -1.
pub open spec fn spec_hex_val(c: char) -> int {
    if '0' <= c && c <= '9' {
        c as int - '0' as int
    } else if 'a' <= c && c <= 'f' {
        c as int - 'a' as int + 10
    } else if 'A' <= c && c <= 'F' {
        c as int - 'A' as int + 10
    } else {
        -1
    }
}

/// The value of the hexadecimal digits of `s` from `i` on, folded onto
/// `acc`; `None` on a non-digit or once the value leaves the given bound.
pub open spec fn spec_hex_fold(s: Seq<char>, i: int, acc: int, bound: int) -> Option<int>
    decreases s.len() - i
        when 0 <= i <= s.len()
{
    if i >= s.len() {
        Some(acc)
    } else if spec_hex_val(s[i]) < 0 {
        None
    } else if acc * 16 + spec_hex_val(s[i]) > bound {
        None
    } else {
        spec_hex_fold(s, i + 1, acc * 16 + spec_hex_val(s[i]), bound)
    }
}

/// The value of a whole hexadecimal numeral no larger than the largest TCP
/// port.
pub open spec fn spec_parse_hex_port(s: Seq<char>) -> Option<int> {
    if s.len() == 0 {
        None
    } else {
        spec_hex_fold(s, 0, 0, 65535)
    }
}

/// The value of the decimal digits of `s` from `i` on, folded onto `acc`;
/// `None` on a non-digit or once the value leaves the given bound.
pub open spec fn spec_dec_fold(s: Seq<char>, i: int, acc: int, bound: int) -> Option<int>
    decreases s.len() - i
        when 0 <= i <= s.len()
{
    if i >= s.len() {
        Some(acc)
    } else if !('0' <= s[i] && s[i] <= '9') {
        None
    } else if acc * 10 + (s[i] as int - '0' as int) > bound {
        None
    } else {
        spec_dec_fold(s, i + 1, acc * 10 + (s[i] as int - '0' as int), bound)
    }
}

/// The value of a whole decimal numeral that fits an unsigned 64-bit count.
pub open spec fn spec_parse_dec_u64(s: Seq<char>) -> Option<int> {
    if s.len() == 0 {
        None
    } else {
        spec_dec_fold(s, 0, 0, 0xffff_ffff_ffff_ffff)
    }
}

/// The first colon at or after `i`.
pub open spec fn spec_find_colon(s: Seq<char>, i: int) -> Option<int>
    decreases s.len() - i
        when 0 <= i
{
    if i >= s.len() {
        None
    } else if s[i] == ':' {
        Some(i)
    } else {
        spec_find_colon(s, i + 1)
    }
}

/// The port of a local-address field `hexip:hexport`: the hexadecimal value
/// after the first colon.
pub open spec fn spec_local_port(s: Seq<char>) -> Option<int> {
    match spec_find_colon(s, 0) {
        None => None,
        Some(j) => spec_parse_hex_port(s.subrange(j + 1, s.len() as int)),
    }
}

/// What a socket-table row says, if it describes a listening TCP socket: the
/// local port it listens on and the socket's inode. The listening state is
/// the hexadecimal state `0A`; the local address is field 1, the state field
/// 3 and the inode field 9 of the row.
pub open spec fn spec_listen_row(s: Seq<char>) -> Option<(int, int)> {
    if spec_field(s, 3) == seq!['0', 'A'] {
        match spec_local_port(spec_field(s, 1)) {
            None => None,
            Some(port) => match spec_parse_dec_u64(spec_field(s, 9)) {
                None => None,
                Some(inode) => Some((port, inode)),
            },
        }
    } else {
        None
    }
}

/// The inode named by a descriptor link of the form `socket:[<inode>]`.
pub open spec fn spec_link_inode(s: Seq<char>) -> Option<int> {
    if s.len() >= 10 && s.subrange(0, 8) == "socket:["@ && s.last() == ']' {
        spec_parse_dec_u64(s.subrange(8, s.len() - 1))
    } else {
        None
    }
}

fn skip_ws(v: &Vec<char>, i: usize) -> (r: usize)
    requires
        i <= v@.len(),
    ensures
        r == spec_skip_ws(v@, i as int),
        i <= r <= v@.len(),
{
    let n = v.len();
    let mut j = i;
    while j < n
        invariant
            i <= j <= n,
            n == v@.len(),
            spec_skip_ws(v@, i as int) == spec_skip_ws(v@, j as int),
        decreases n - j,
    {
        let c = v[j];
        if !(c == ' ' || c == '\t') {
            return j;
        }
        j = j + 1;
    }
    j
}

fn skip_field(v: &Vec<char>, i: usize) -> (r: usize)
    requires
        i <= v@.len(),
    ensures
        r == spec_skip_field(v@, i as int),
        i <= r <= v@.len(),
{
    let n = v.len();
    let mut j = i;
    while j < n
        invariant
            i <= j <= n,
            n == v@.len(),
            spec_skip_field(v@, i as int) == spec_skip_field(v@, j as int),
        decreases n - j,
    {
        let c = v[j];
        if c == ' ' || c == '\t' {
            return j;
        }
        j = j + 1;
    }
    j
}

/// The characters of the whitespace-separated field number `k`.
fn field_of(v: &Vec<char>, k: usize) -> (r: Vec<char>)
    ensures
        r@ == spec_field(v@, k as nat),
{
    let mut t: usize = 0;
    let mut start = skip_ws(v, 0);
    while t < k
        invariant
            t <= k,
            start == spec_field_start(v@, t as nat),
            start <= v@.len(),
        decreases k - t,
    {
        start = skip_ws(v, skip_field(v, start));
        t = t + 1;
    }
    let end = skip_field(v, start);
    let mut r: Vec<char> = Vec::new();
    let mut i = start;
    while i < end
        invariant
            start <= i <= end,
            end <= v@.len(),
            r@ == v@.subrange(start as int, i as int),
        decreases end - i,
    {
        r.push(v[i]);
        proof {
            assert(r@ =~= v@.subrange(start as int, i as int + 1));
        }
        i = i + 1;
    }
    proof {
        assert(r@ =~= spec_field(v@, k as nat));
    }
    r
}

/// The first colon of `v`.
fn find_colon(v: &Vec<char>) -> (r: Option<usize>)
    ensures
        match r {
            Some(j) => spec_find_colon(v@, 0) == Some(j as int) && j < v@.len(),
            None => spec_find_colon(v@, 0) is None,
        },
{
    let n = v.len();
    let mut j: usize = 0;
    while j < n
        invariant
            j <= n,
            n == v@.len(),
            spec_find_colon(v@, 0) == spec_find_colon(v@, j as int),
        decreases n - j,
    {
        if v[j] == ':' {
            return Some(j);
        }
        j = j + 1;
    }
    None
}

/// The value of one hexadecimal digit, or nothing.
fn hex_val(c: char) -> (r: Option<u32>)
    ensures
        match r {
            Some(v) => spec_hex_val(c) == v as int && v < 16,
            None => spec_hex_val(c) < 0,
        },
{
    if '0' <= c && c <= '9' {
        Some((c as u32) - 48)
    } else if 'a' <= c && c <= 'f' {
        Some((c as u32) - 97 + 10)
    } else if 'A' <= c && c <= 'F' {
        Some((c as u32) - 65 + 10)
    } else {
        None
    }
}

/// The hexadecimal value of `v` from `i` on, within the range of TCP ports.
fn parse_hex_port_from(v: &Vec<char>, i: usize) -> (r: Option<u16>)
    requires
        i <= v@.len(),
    ensures
        match r {
            Some(p) => v@.len() > i && spec_hex_fold(v@.subrange(i as int, v@.len() as int), 0, 0, 65535)
                == Some(p as int),
            None => v@.len() <= i || spec_hex_fold(
                v@.subrange(i as int, v@.len() as int),
                0,
                0,
                65535,
            ) is None,
        },
{
    let n = v.len();
    if i >= n {
        return None;
    }
    let ghost t = v@.subrange(i as int, v@.len() as int);
    let mut j = i;
    let mut acc: u32 = 0;
    while j < n
        invariant
            i <= j <= n,
            n == v@.len(),
            acc <= 65535,
            t == v@.subrange(i as int, v@.len() as int),
            t.len() == n - i,
            forall|x: int| 0 <= x < t.len() ==> t[x] == v@[i + x],
            spec_hex_fold(t, 0, 0, 65535) == spec_hex_fold(t, j - i, acc as int, 65535),
        decreases n - j,
    {
        let d = match hex_val(v[j]) {
            Some(d) => d,
            None => {
                return None;
            },
        };
        let acc2 = acc * 16 + d;
        if acc2 > 65535 {
            return None;
        }
        acc = acc2;
        j = j + 1;
    }
    Some(acc as u16)
}

/// The decimal value of `v` from `i` on, within an unsigned 64-bit count.
fn parse_dec_u64_from(v: &Vec<char>, i: usize) -> (r: Option<u64>)
    requires
        i <= v@.len(),
    ensures
        match r {
            Some(d) => v@.len() > i && spec_dec_fold(
                v@.subrange(i as int, v@.len() as int),
                0,
                0,
                0xffff_ffff_ffff_ffff,
            ) == Some(d as int),
            None => v@.len() <= i || spec_dec_fold(
                v@.subrange(i as int, v@.len() as int),
                0,
                0,
                0xffff_ffff_ffff_ffff,
            ) is None,
        },
{
    let n = v.len();
    if i >= n {
        return None;
    }
    let ghost t = v@.subrange(i as int, v@.len() as int);
    let mut j = i;
    let mut acc: u64 = 0;
    while j < n
        invariant
            i <= j <= n,
            n == v@.len(),
            t == v@.subrange(i as int, v@.len() as int),
            t.len() == n - i,
            forall|x: int| 0 <= x < t.len() ==> t[x] == v@[i + x],
            spec_dec_fold(t, 0, 0, 0xffff_ffff_ffff_ffff) == spec_dec_fold(
                t,
                j - i,
                acc as int,
                0xffff_ffff_ffff_ffff,
            ),
        decreases n - j,
    {
        let c = v[j];
        if c < '0' || c > '9' {
            return None;
        }
        let d = (c as u64) - 48;
        if acc > (0xffff_ffff_ffff_ffff - d) / 10 {
            proof {
                assert(acc * 10 + d > 0xffff_ffff_ffff_ffff) by (nonlinear_arith)
                    requires
                        acc > (0xffff_ffff_ffff_ffff - d) / 10,
                        d <= 9,
                        acc >= 0,
                ;
            }
            return None;
        }
        proof {
            assert(acc * 10 + d <= 0xffff_ffff_ffff_ffff) by (nonlinear_arith)
                requires
                    acc <= (0xffff_ffff_ffff_ffff - d) / 10,
                    d <= 9,
                    acc >= 0,
            ;
        }
        let acc2 = acc * 10 + d;
        acc = acc2;
        j = j + 1;
    }
    Some(acc)
}

/// Read one socket-table row: for a listening TCP socket, its local port and
/// its inode.
pub fn parse_listen_row(line: &str) -> (r: Option<(u16, u64)>)
    ensures
        match r {
            Some(pi) => spec_listen_row(line@) == Some((pi.0 as int, pi.1 as int)),
            None => spec_listen_row(line@) is None,
        },
{
    let cs = crate::portscan::chars_of(line);
    let state = field_of(&cs, 3);
    let is_listen = state.len() == 2 && state[0] == '0' && state[1] == 'A';
    if !is_listen {
        proof {
            assert(spec_field(cs@, 3) != seq!['0', 'A']) by {
                if spec_field(cs@, 3) == seq!['0', 'A'] {
                    assert(state@.len() == 2 && state@[0] == '0' && state@[1] == 'A');
                }
            }
        }
        return None;
    }
    proof {
        assert(state@ =~= seq!['0', 'A']);
    }
    let local = field_of(&cs, 1);
    let colon = find_colon(&local);
    let port = match colon {
        Some(j) => match parse_hex_port_from(&local, j + 1) {
            Some(p) => p,
            None => {
                return None;
            },
        },
        None => {
            return None;
        },
    };
    let inode_field = field_of(&cs, 9);
    let inode = match parse_dec_u64_from(&inode_field, 0) {
        Some(d) => d,
        None => {
            proof {
                assert(inode_field@.subrange(0, inode_field@.len() as int) =~= inode_field@);
            }
            return None;
        },
    };
    proof {
        assert(inode_field@.subrange(0, inode_field@.len() as int) =~= inode_field@);
    }
    Some((port, inode))
}

/// Read one descriptor link target: the socket inode it names, if it is a
/// socket link of the form `socket:[<inode>]`.
pub fn parse_socket_link(target: &str) -> (r: Option<u64>)
    ensures
        match r {
            Some(d) => spec_link_inode(target@) == Some(d as int),
            None => spec_link_inode(target@) is None,
        },
{
    let cs = crate::portscan::chars_of(target);
    let n = cs.len();
    if n < 10 {
        return None;
    }
    let prefix_ok = cs[0] == 's' && cs[1] == 'o' && cs[2] == 'c' && cs[3] == 'k' && cs[4] == 'e'
        && cs[5] == 't' && cs[6] == ':' && cs[7] == '[';
    proof {
        reveal_strlit("socket:[");
    }
    if !prefix_ok {
        proof {
            assert(cs@.subrange(0, 8) != "socket:["@) by {
                if cs@.subrange(0, 8) == "socket:["@ {
                    assert forall|x: int| 0 <= x < 8 implies cs@[x] == "socket:["@[x] by {
                        assert(cs@.subrange(0, 8)[x] == cs@[x]);
                    }
                    assert(cs@[0] == 's' && cs@[1] == 'o' && cs@[2] == 'c' && cs@[3] == 'k'
                        && cs@[4] == 'e' && cs@[5] == 't' && cs@[6] == ':' && cs@[7] == '[');
                }
            }
        }
        return None;
    }
    proof {
        assert(cs@.subrange(0, 8) =~= "socket:["@);
    }
    if cs[n - 1] != ']' {
        return None;
    }
    let mut middle: Vec<char> = Vec::new();
    let mut i: usize = 8;
    while i < n - 1
        invariant
            8 <= i <= n - 1,
            n == cs@.len(),
            10 <= n,
            middle@ == cs@.subrange(8, i as int),
        decreases n - 1 - i,
    {
        middle.push(cs[i]);
        proof {
            assert(middle@ =~= cs@.subrange(8, i as int + 1));
        }
        i = i + 1;
    }
    proof {
        assert(middle@ =~= cs@.subrange(8, n - 1));
    }
    match parse_dec_u64_from(&middle, 0) {
        Some(d) => {
            proof {
                assert(middle@.subrange(0, middle@.len() as int) =~= middle@);
            }
            Some(d)
        },
        None => {
            proof {
                assert(middle@.subrange(0, middle@.len() as int) =~= middle@);
            }
            None
        },
    }
}

} // verus!
