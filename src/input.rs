use vstd::prelude::*;
use crate::models::Family;
use crate::text::{trim, trimmed_of, upper_of, uppercase};

verus! {

/// Every character of `s` is an ASCII digit.
pub open spec fn all_digits(s: Seq<char>) -> bool {
    forall|i: int| 0 <= i < s.len() ==> '0' <= #[trigger] s[i] <= '9'
}

/// The value of a run of ASCII digits.
pub open spec fn digits_value(s: Seq<char>) -> int
    decreases s.len(),
{
    if s.len() == 0 {
        0
    } else {
        digits_value(s.drop_last()) * 10 + (s.last() as int - '0' as int)
    }
}

/// The value of an unsigned decimal numeral: an optional `+`, then one or more
/// ASCII digits; `None` for any other text.
pub open spec fn numeral_value(s: Seq<char>) -> Option<int> {
    let d = if s.len() > 0 && s[0] == '+' { s.subrange(1, s.len() as int) } else { s };
    if d.len() > 0 && all_digits(d) {
        Some(digits_value(d))
    } else {
        None
    }
}

/// The text is a numeral of a valid AS number, from 1 to 999999.
pub open spec fn asn_numeral(s: Seq<char>) -> bool {
    numeral_value(s) matches Some(v) && 1 <= v <= 999999
}

/// The AS name that a line typed by a user stands for: the line trimmed and
/// upper-cased, with an `AS` put in front where it has none; `None` where the
/// number is missing or out of range.
pub open spec fn asn_text(line: Seq<char>) -> Option<Seq<char>> {
    let u = upper_of(trimmed_of(line));
    if u.len() >= 2 && u[0] == 'A' && u[1] == 'S' {
        if asn_numeral(u.subrange(2, u.len() as int)) {
            Some(u)
        } else {
            None
        }
    } else if asn_numeral(u) {
        Some("AS"@ + u)
    } else {
        None
    }
}

/// The smaller of a value and one past the largest AS number.
pub open spec fn capped(v: int) -> int {
    if v > 1000000 {
        1000001
    } else {
        v
    }
}

/// Whether a text is a numeral of a valid AS number.
pub fn is_asn_numeral(s: &str) -> (r: bool)
    ensures
        r == asn_numeral(s@),
{
    let n = s.unicode_len();
    let mut start: usize = 0;
    if n > 0 && s.get_char(0) == '+' {
        start = 1;
    }
    if start >= n {
        return false;
    }
    let ghost d = s@.subrange(start as int, n as int);
    assert(d == (if s@.len() > 0 && s@[0] == '+' { s@.subrange(1, s@.len() as int) } else { s@ }));
    let mut v: u64 = 0;
    let mut i: usize = start;
    while i < n
        invariant
            start <= i <= n,
            n == s@.len(),
            d == s@.subrange(start as int, n as int),
            d == (if s@.len() > 0 && s@[0] == '+' { s@.subrange(1, s@.len() as int) } else { s@ }),
            d.len() > 0,
            all_digits(s@.subrange(start as int, i as int)),
            v as int == capped(digits_value(s@.subrange(start as int, i as int))),
            digits_value(s@.subrange(start as int, i as int)) >= 0,
        decreases n - i,
    {
        let c = s.get_char(i);
        let ghost p = s@.subrange(start as int, i as int);
        let ghost q = s@.subrange(start as int, i + 1);
        assert(q.drop_last() =~= p);
        assert(q.last() == c);
        if !('0' <= c && c <= '9') {
            assert(d[i - start] == c);
            assert(!all_digits(d));
            assert(numeral_value(s@) is None);
            return false;
        }
        let digit = (c as u64) - ('0' as u64);
        if v > 100000 {
            v = 1000001;
        } else {
            v = v * 10 + digit;
            if v > 1000000 {
                v = 1000001;
            }
        }
        assert(all_digits(q));
        i += 1;
    }
    assert(s@.subrange(start as int, i as int) =~= d);
    1 <= v && v <= 999999
}

/// The AS name that a line typed by a user stands for (`13335` and
/// ` as13335 ` both give `AS13335`), or `None` where it names no AS number
/// from 1 to 999999.
pub fn asn_from_input(line: &str) -> (r: Option<String>)
    ensures
        match asn_text(line@) {
            Some(t) => r matches Some(x) && x@ == t,
            None => r is None,
        },
{
    let t = trim(line);
    let u = uppercase(t.as_str());
    let n = u.as_str().unicode_len();
    if n >= 2 && u.as_str().get_char(0) == 'A' && u.as_str().get_char(1) == 'S' {
        let rest = u.as_str().substring_char(2, n);
        if is_asn_numeral(rest) {
            Some(u)
        } else {
            None
        }
    } else if is_asn_numeral(u.as_str()) {
        Some(String::from_str("AS").concat(u.as_str()))
    } else {
        None
    }
}

/// The family that a menu choice picks: `1` for IPv4, `2` for IPv6, white
/// space around it ignored.
pub open spec fn menu_family(line: Seq<char>) -> Option<Family> {
    if trimmed_of(line) == "1"@ {
        Some(Family::V4)
    } else if trimmed_of(line) == "2"@ {
        Some(Family::V6)
    } else {
        None
    }
}

/// The family that a menu choice picks, if it is one of the two offered.
pub fn family_from_menu(line: &str) -> (r: Option<Family>)
    ensures
        r == menu_family(line@),
{
    let t = trim(line);
    if t == "1".to_owned() {
        Some(Family::V4)
    } else if t == "2".to_owned() {
        Some(Family::V6)
    } else {
        None
    }
}

} // verus!
