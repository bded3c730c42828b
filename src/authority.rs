//! The port that a URL's text names in its authority, read before the URL
//! parser drops a port equal to the scheme's default.

use vstd::prelude::*;
use vstd::string::*;

verus! {

/// The first index at or after `i` that holds `c`, or the length.
pub open spec fn first_from(s: Seq<char>, i: int, c: char) -> int
    decreases s.len() - i,
{
    if i >= s.len() {
        s.len() as int
    } else if s[i] == c {
        i
    } else {
        first_from(s, i + 1, c)
    }
}

/// Whether `c` ends a URL's authority.
pub open spec fn ends_authority(c: char) -> bool {
    c == '/' || c == '?' || c == '#'
}

/// The first index at or after `i` that ends the authority, or the length.
pub open spec fn authority_end(s: Seq<char>, i: int) -> int
    decreases s.len() - i,
{
    if i >= s.len() {
        s.len() as int
    } else if ends_authority(s[i]) {
        i
    } else {
        authority_end(s, i + 1)
    }
}

/// The last index in `lo..i` that holds `c`, or `lo - 1`.
pub open spec fn last_before(s: Seq<char>, c: char, lo: int, i: int) -> int
    decreases i - lo,
{
    if i <= lo {
        lo - 1
    } else if s[i - 1] == c {
        i - 1
    } else {
        last_before(s, c, lo, i - 1)
    }
}

pub open spec fn is_digit(c: char) -> bool {
    '0' <= c && c <= '9'
}

/// Whether `lo..i` holds decimal digits only.
pub open spec fn all_digits(s: Seq<char>, lo: int, i: int) -> bool
    decreases i - lo,
{
    if i <= lo {
        true
    } else {
        is_digit(s[i - 1]) && all_digits(s, lo, i - 1)
    }
}

/// The decimal value of the digits in `lo..i`, capped at 65536.
pub open spec fn digits_value(s: Seq<char>, lo: int, i: int) -> int
    decreases i - lo,
{
    if i <= lo {
        0
    } else {
        let v = digits_value(s, lo, i - 1) * 10 + (s[i - 1] as u32 as int - 48);
        if v > 65536 {
            65536
        } else {
            v
        }
    }
}

/// The port that `s` names: in `scheme://authority...`, the digits after the
/// authority's last `:` that follows its last `@`; `None` when there are none
/// or they exceed 65535.
pub open spec fn named_port(s: Seq<char>) -> Option<u16> {
    let p = first_from(s, 0, ':');
    if p + 2 < s.len() && s[p + 1] == '/' && s[p + 2] == '/' {
        let a = p + 3;
        let e = authority_end(s, a);
        let h = last_before(s, '@', a, e) + 1;
        let k = last_before(s, ':', h, e);
        if k >= h && k + 1 < e && all_digits(s, k + 1, e) && digits_value(s, k + 1, e) <= 65535 {
            Some(digits_value(s, k + 1, e) as u16)
        } else {
            None
        }
    } else {
        None
    }
}

fn find_from(s: &str, n: usize, i0: usize, c: char) -> (r: usize)
    requires
        n == s@.len(),
        i0 <= n,
    ensures
        r == first_from(s@, i0 as int, c),
        r <= n,
{
    let mut i = i0;
    while i < n
        invariant
            i0 <= i <= n,
            n == s@.len(),
            first_from(s@, i0 as int, c) == first_from(s@, i as int, c),
        decreases n - i,
    {
        if s.get_char(i) == c {
            return i;
        }
        i = i + 1;
    }
    i
}

fn find_authority_end(s: &str, n: usize, i0: usize) -> (r: usize)
    requires
        n == s@.len(),
        i0 <= n,
    ensures
        r == authority_end(s@, i0 as int),
        i0 <= r <= n,
{
    let mut i = i0;
    while i < n
        invariant
            i0 <= i <= n,
            n == s@.len(),
            authority_end(s@, i0 as int) == authority_end(s@, i as int),
        decreases n - i,
    {
        let c = s.get_char(i);
        if c == '/' || c == '?' || c == '#' {
            return i;
        }
        i = i + 1;
    }
    i
}

/// The last index in `lo..hi` holding `c`, as `Some`, or `None`.
fn find_last(s: &str, c: char, lo: usize, hi: usize) -> (r: Option<usize>)
    requires
        lo <= hi <= s@.len(),
    ensures
        match r {
            Some(k) => k == last_before(s@, c, lo as int, hi as int) && lo <= k < hi,
            None => last_before(s@, c, lo as int, hi as int) == lo - 1,
        },
{
    let mut i = hi;
    while i > lo
        invariant
            lo <= i <= hi <= s@.len(),
            last_before(s@, c, lo as int, hi as int) == last_before(s@, c, lo as int, i as int),
        decreases i - lo,
    {
        if s.get_char(i - 1) == c {
            return Some(i - 1);
        }
        i = i - 1;
    }
    None
}

/// The port that the URL text `s` names in its authority, as written.
pub fn port_named_in(s: &str) -> (r: Option<u16>)
    ensures
        r == named_port(s@),
{
    let n = s.unicode_len();
    let p = find_from(s, n, 0, ':');
    if !(p < n && n - p > 2 && s.get_char(p + 1) == '/' && s.get_char(p + 2) == '/') {
        return None;
    }
    let a = p + 3;
    let e = find_authority_end(s, n, a);
    let h = match find_last(s, '@', a, e) {
        Some(k) => k + 1,
        None => a,
    };
    let k = match find_last(s, ':', h, e) {
        Some(k) => k,
        None => {
            return None;
        },
    };
    if k + 1 >= e {
        return None;
    }
    let ghost sv = s@;
    assert(a == first_from(sv, 0, ':') + 3);
    assert(h == last_before(sv, '@', a as int, e as int) + 1);
    assert(k == last_before(sv, ':', h as int, e as int));
    let ghost want = if all_digits(sv, k + 1, e as int) && digits_value(sv, k + 1, e as int) <= 65535 {
        Some(digits_value(sv, k + 1, e as int) as u16)
    } else {
        None
    };
    assert(named_port(sv) == want);
    let mut v: u32 = 0;
    let mut i = k + 1;
    while i < e
        invariant
            k + 1 <= i <= e <= n,
            n == s@.len(),
            v as int == digits_value(s@, k + 1, i as int),
            v <= 65536,
            all_digits(s@, k + 1, i as int),
            sv == s@,
            named_port(sv) == want,
            want == (if all_digits(sv, k + 1, e as int) && digits_value(sv, k + 1, e as int)
                <= 65535 {
                Some(digits_value(sv, k + 1, e as int) as u16)
            } else {
                None
            }),
        decreases e - i,
    {
        let c = s.get_char(i);
        if !('0' <= c && c <= '9') {
            proof {
                assert(!all_digits(s@, k + 1, e as int)) by {
                    lemma_digits_stop(s@, k + 1, i as int, e as int);
                }
            }
            return None;
        }
        let d = (c as u32) - 48;
        let w = v * 10 + d;
        v = if w > 65536 {
            65536
        } else {
            w
        };
        i = i + 1;
    }
    if v > 65535 {
        return None;
    }
    Some(v as u16)
}

/// A non-digit at `i` in `lo..e` makes the whole range not all digits.
proof fn lemma_digits_stop(s: Seq<char>, lo: int, i: int, e: int)
    requires
        lo <= i < e <= s.len(),
        !is_digit(s[i]),
    ensures
        !all_digits(s, lo, e),
    decreases e - i,
{
    if e - 1 > i {
        lemma_digits_stop(s, lo, i, e - 1);
    }
}

} // verus!
