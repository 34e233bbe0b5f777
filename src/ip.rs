use vstd::prelude::*;
use vstd::string::*;

verus! {

/// The address family of an IP literal and of the record type that holds it.
#[derive(Debug, Clone, Copy, PartialEq, Eq, Structural)]
pub enum IpFamily {
    V4,
    V6,
}

pub open spec fn is_digit(c: char) -> bool {
    '0' <= c && c <= '9'
}

pub open spec fn is_hex_digit(c: char) -> bool {
    ('0' <= c && c <= '9') || ('a' <= c && c <= 'f') || ('A' <= c && c <= 'F')
}

/// Progress of a left-to-right read of a dotted-quad literal.
#[derive(Debug, Clone, Copy)]
pub struct V4Scan {
    pub ok: bool,
    /// dots read so far
    pub dots: u32,
    /// digits of the octet being read
    pub digits: u32,
    /// value of the octet being read
    pub value: u32,
    /// the octet being read started with a zero
    pub lead_zero: bool,
}

pub open spec fn v4_start() -> V4Scan {
    V4Scan { ok: true, dots: 0, digits: 0, value: 0, lead_zero: false }
}

pub open spec fn v4_fail(st: V4Scan) -> V4Scan {
    V4Scan { ok: false, ..st }
}

/// One character of a dotted quad: octets of one to three decimal digits,
/// no leading zero, at most 255, separated by exactly three dots.
pub open spec fn v4_step(st: V4Scan, c: char) -> V4Scan {
    if !st.ok {
        st
    } else if is_digit(c) {
        let d = (c as u32 - '0' as u32) as u32;
        if st.digits == 0 {
            V4Scan { digits: 1, value: d, lead_zero: d == 0, ..st }
        } else if st.lead_zero || st.digits >= 3 || st.value * 10 + d > 255 {
            v4_fail(st)
        } else {
            V4Scan { digits: (st.digits + 1) as u32, value: (st.value * 10 + d) as u32, ..st }
        }
    } else if c == '.' {
        if st.digits == 0 || st.dots >= 3 {
            v4_fail(st)
        } else {
            V4Scan { dots: (st.dots + 1) as u32, digits: 0, value: 0, lead_zero: false, ..st }
        }
    } else {
        v4_fail(st)
    }
}

pub open spec fn v4_scan(s: Seq<char>) -> V4Scan
    decreases s.len(),
{
    if s.len() == 0 {
        v4_start()
    } else {
        v4_step(v4_scan(s.drop_last()), s.last())
    }
}

pub open spec fn v4_bounded(st: V4Scan) -> bool {
    st.dots <= 3 && st.digits <= 3 && st.value <= 255
}

/// `s` is an IPv4 literal in dotted-quad form, such as `192.0.2.7`.
pub open spec fn is_ipv4_literal(s: Seq<char>) -> bool {
    let st = v4_scan(s);
    st.ok && st.dots == 3 && st.digits > 0
}

/// Progress of a left-to-right read of a colon-separated IPv6 literal.
#[derive(Debug, Clone, Copy)]
pub struct V6Scan {
    pub ok: bool,
    /// groups started so far
    pub groups: u32,
    /// hex digits of the group being read
    pub digits: u32,
    /// colons read since the last digit
    pub colons: u32,
    /// a `::` has been read
    pub compressed: bool,
}

pub open spec fn v6_start() -> V6Scan {
    V6Scan { ok: true, groups: 0, digits: 0, colons: 0, compressed: false }
}

pub open spec fn v6_fail(st: V6Scan) -> V6Scan {
    V6Scan { ok: false, ..st }
}

/// One character of an IPv6 literal: groups of one to four hex digits
/// separated by single colons, with at most one `::` standing for one or more
/// zero groups. The dotted-quad tail form is not accepted.
pub open spec fn v6_step(st: V6Scan, c: char) -> V6Scan {
    if !st.ok {
        st
    } else if is_hex_digit(c) {
        if st.digits == 0 {
            if (st.colons == 1 && st.groups == 0) || st.groups >= 8 {
                v6_fail(st)
            } else {
                V6Scan { groups: (st.groups + 1) as u32, digits: 1, colons: 0, ..st }
            }
        } else if st.digits >= 4 {
            v6_fail(st)
        } else {
            V6Scan { digits: (st.digits + 1) as u32, ..st }
        }
    } else if c == ':' {
        if st.colons == 0 {
            if st.digits == 0 && st.groups > 0 {
                v6_fail(st)
            } else {
                V6Scan { colons: 1, digits: 0, ..st }
            }
        } else if st.colons == 1 && !st.compressed {
            V6Scan { colons: 2, compressed: true, ..st }
        } else {
            v6_fail(st)
        }
    } else {
        v6_fail(st)
    }
}

pub open spec fn v6_scan(s: Seq<char>) -> V6Scan
    decreases s.len(),
{
    if s.len() == 0 {
        v6_start()
    } else {
        v6_step(v6_scan(s.drop_last()), s.last())
    }
}

pub open spec fn v6_bounded(st: V6Scan) -> bool {
    st.groups <= 8 && st.digits <= 4 && st.colons <= 2
}

/// `s` is an IPv6 literal such as `2001:db8::1`.
pub open spec fn is_ipv6_literal(s: Seq<char>) -> bool {
    let st = v6_scan(s);
    st.ok && st.colons != 1 && (if st.compressed {
        st.groups <= 7
    } else {
        st.groups == 8
    })
}

/// `s` is an IP literal of the given family.
pub open spec fn is_literal_of(s: Seq<char>, family: IpFamily) -> bool {
    match family {
        IpFamily::V4 => is_ipv4_literal(s),
        IpFamily::V6 => is_ipv6_literal(s),
    }
}

proof fn lemma_v4_bounded(s: Seq<char>)
    ensures
        v4_bounded(v4_scan(s)),
    decreases s.len(),
{
    if s.len() > 0 {
        lemma_v4_bounded(s.drop_last());
    }
}

proof fn lemma_v6_bounded(s: Seq<char>)
    ensures
        v6_bounded(v6_scan(s)),
    decreases s.len(),
{
    if s.len() > 0 {
        lemma_v6_bounded(s.drop_last());
    }
}

fn v4_next(st: V4Scan, c: char) -> (r: V4Scan)
    requires
        v4_bounded(st),
    ensures
        r == v4_step(st, c),
{
    if !st.ok {
        st
    } else if '0' <= c && c <= '9' {
        let d: u32 = c as u32 - '0' as u32;
        if st.digits == 0 {
            V4Scan { digits: 1, value: d, lead_zero: d == 0, ..st }
        } else if st.lead_zero || st.digits >= 3 || st.value * 10 + d > 255 {
            V4Scan { ok: false, ..st }
        } else {
            V4Scan { digits: st.digits + 1, value: st.value * 10 + d, ..st }
        }
    } else if c == '.' {
        if st.digits == 0 || st.dots >= 3 {
            V4Scan { ok: false, ..st }
        } else {
            V4Scan { dots: st.dots + 1, digits: 0, value: 0, lead_zero: false, ..st }
        }
    } else {
        V4Scan { ok: false, ..st }
    }
}

fn v6_next(st: V6Scan, c: char) -> (r: V6Scan)
    requires
        v6_bounded(st),
    ensures
        r == v6_step(st, c),
{
    if !st.ok {
        st
    } else if ('0' <= c && c <= '9') || ('a' <= c && c <= 'f') || ('A' <= c && c <= 'F') {
        if st.digits == 0 {
            if (st.colons == 1 && st.groups == 0) || st.groups >= 8 {
                V6Scan { ok: false, ..st }
            } else {
                V6Scan { groups: st.groups + 1, digits: 1, colons: 0, ..st }
            }
        } else if st.digits >= 4 {
            V6Scan { ok: false, ..st }
        } else {
            V6Scan { digits: st.digits + 1, ..st }
        }
    } else if c == ':' {
        if st.colons == 0 {
            if st.digits == 0 && st.groups > 0 {
                V6Scan { ok: false, ..st }
            } else {
                V6Scan { colons: 1, digits: 0, ..st }
            }
        } else if st.colons == 1 && !st.compressed {
            V6Scan { colons: 2, compressed: true, ..st }
        } else {
            V6Scan { ok: false, ..st }
        }
    } else {
        V6Scan { ok: false, ..st }
    }
}

/// Whether `s` is an IPv4 literal in dotted-quad form.
pub fn is_ipv4(s: &str) -> (r: bool)
    ensures
        r == is_ipv4_literal(s@),
{
    let n = s.unicode_len();
    let mut st = V4Scan { ok: true, dots: 0, digits: 0, value: 0, lead_zero: false };
    let mut i: usize = 0;
    while i < n
        invariant
            n == s@.len(),
            i <= n,
            st == v4_scan(s@.take(i as int)),
        decreases n - i,
    {
        proof {
            lemma_v4_bounded(s@.take(i as int));
            assert(s@.take(i as int + 1).drop_last() =~= s@.take(i as int));
        }
        st = v4_next(st, s.get_char(i));
        i = i + 1;
    }
    proof {
        assert(s@.take(n as int) =~= s@);
    }
    st.ok && st.dots == 3 && st.digits > 0
}

/// Whether `s` is an IPv6 literal in colon-separated form.
pub fn is_ipv6(s: &str) -> (r: bool)
    ensures
        r == is_ipv6_literal(s@),
{
    let n = s.unicode_len();
    let mut st = V6Scan { ok: true, groups: 0, digits: 0, colons: 0, compressed: false };
    let mut i: usize = 0;
    while i < n
        invariant
            n == s@.len(),
            i <= n,
            st == v6_scan(s@.take(i as int)),
        decreases n - i,
    {
        proof {
            lemma_v6_bounded(s@.take(i as int));
            assert(s@.take(i as int + 1).drop_last() =~= s@.take(i as int));
        }
        st = v6_next(st, s.get_char(i));
        i = i + 1;
    }
    proof {
        assert(s@.take(n as int) =~= s@);
    }
    st.ok && st.colons != 1 && (if st.compressed {
        st.groups <= 7
    } else {
        st.groups == 8
    })
}

/// Whether `s` is an IP literal of `family`.
pub fn is_literal(s: &str, family: IpFamily) -> (r: bool)
    ensures
        r == is_literal_of(s@, family),
{
    match family {
        IpFamily::V4 => is_ipv4(s),
        IpFamily::V6 => is_ipv6(s),
    }
}

} // verus!
