use vstd::prelude::*;
use regex::Regex;

verus! {

/// What `str::to_uppercase` makes of a text.
pub uninterp spec fn upper_of(s: Seq<char>) -> Seq<char>;

/// A character of the Unicode `White_Space` property, which `char::is_whitespace`
/// tests.
pub open spec fn is_white_space(c: char) -> bool {
    ('\u{9}' <= c <= '\u{d}') || c == ' ' || c == '\u{85}' || c == '\u{a0}' || c == '\u{1680}'
        || ('\u{2000}' <= c <= '\u{200a}') || c == '\u{2028}' || c == '\u{2029}' || c == '\u{202f}'
        || c == '\u{205f}' || c == '\u{3000}'
}

/// A text without its leading and trailing white space, as `str::trim` makes it.
pub open spec fn trimmed_of(s: Seq<char>) -> Seq<char> {
    if forall|k: int| 0 <= k < s.len() ==> is_white_space(#[trigger] s[k]) {
        Seq::empty()
    } else {
        let i = choose|i: int|
            0 <= i < s.len() && !is_white_space(s[i]) && forall|k: int| 0 <= k < i ==> is_white_space(#[trigger] s[k]);
        let j = choose|j: int|
            0 <= j < s.len() && !is_white_space(s[j]) && forall|k: int| j < k < s.len() ==> is_white_space(#[trigger] s[k]);
        s.subrange(i, j + 1)
    }
}

/// Relies on `str::to_uppercase`: the upper-case form of a text.
#[verifier::external_body]
pub(crate) fn uppercase(s: &str) -> (r: String)
    ensures
        r@ == upper_of(s@),
{
    s.to_uppercase()
}

/// Relies on `str::trim`: the text without leading and trailing characters
/// of the Unicode `White_Space` property.
#[verifier::external_body]
pub(crate) fn trim(s: &str) -> (r: String)
    ensures
        r@ == trimmed_of(s@),
{
    s.trim().to_string()
}

/// `s[i..j]` holds no `/` and `s[j]` is a dot.
pub open spec fn stem_before_dot(s: Seq<char>, i: int, j: int) -> bool {
    &&& 0 <= i < j < s.len()
    &&& s[j] == '.'
    &&& forall|k: int| i <= k < j ==> s[k] != '/'
}

/// Some run of non-`/` characters starting at `i` is followed by a dot.
pub open spec fn stem_starts_at(s: Seq<char>, i: int) -> bool {
    exists|j: int| stem_before_dot(s, i, j)
}

/// The first match of `([^/]+)\.` in `s`, its group: the leftmost start of a
/// run of non-`/` characters followed by a dot, and the longest such run there.
pub open spec fn icon_stem(s: Seq<char>) -> Option<Seq<char>> {
    if exists|i: int| stem_starts_at(s, i) {
        let i = choose|i: int|
            stem_starts_at(s, i) && forall|i2: int| 0 <= i2 < i ==> !stem_starts_at(s, i2);
        let j = choose|j: int|
            stem_before_dot(s, i, j) && forall|j2: int| j < j2 ==> !stem_before_dot(s, i, j2);
        Some(s.subrange(i, j))
    } else {
        None
    }
}

/// Relies on regex's `Regex::captures` with the pattern `([^/]+)\.`: the
/// leftmost match, taken greedily, and its first group.
#[verifier::external_body]
fn get_country_code_from_gifurl(url: &str) -> (r: Option<String>)
    ensures
        match r {
            Some(c) => icon_stem(url@) == Some(c@),
            None => icon_stem(url@) is None,
        },
{
    let re = Regex::new(r"([^/]+)\.").unwrap();
    re.captures(url).and_then(|caps| caps.get(1)).map(|m| m.as_str().to_string())
}

/// `s[k]` is the last `/` of `s`.
pub open spec fn last_slash_at(s: Seq<char>, k: int) -> bool {
    &&& 0 <= k < s.len()
    &&& s[k] == '/'
    &&& forall|k2: int| k < k2 < s.len() ==> s[k2] != '/'
}

/// The last segment of a path: what follows its last `/`, or the whole path
/// where it has none.
pub open spec fn last_segment(s: Seq<char>) -> Seq<char> {
    if exists|k: int| last_slash_at(s, k) {
        let k = choose|k: int| last_slash_at(s, k);
        s.subrange(k + 1, s.len() as int)
    } else {
        s
    }
}

/// The last segment of a path (`/images/flags/us.gif` gives `us.gif`).
pub fn last_path_segment(s: &str) -> (r: &str)
    ensures
        r@ == last_segment(s@),
{
    let n = s.unicode_len();
    let mut start: usize = 0;
    let mut i: usize = 0;
    while i < n
        invariant
            i <= n,
            n == s@.len(),
            start <= i,
            start == 0 ==> forall|k: int| 0 <= k < i ==> s@[k] != '/',
            start > 0 ==> s@[start - 1] == '/',
            forall|k: int| start <= k < i ==> s@[k] != '/',
        decreases n - i,
    {
        if s.get_char(i) == '/' {
            start = i + 1;
        }
        i += 1;
    }
    proof {
        if start == 0 {
            assert forall|k: int| !last_slash_at(s@, k) by {
                if 0 <= k < s@.len() {
                    assert(s@[k] != '/');
                }
            }
        } else {
            let k0 = start - 1;
            assert(last_slash_at(s@, k0 as int));
            let k = choose|k: int| last_slash_at(s@, k);
            if k < k0 {
                assert(s@[k0 as int] != '/');
            }
            if k > k0 {
                assert(s@[k] != '/');
            }
            assert(k == k0);
        }
    }
    s.substring_char(start, n)
}

/// The country code that a flag icon's path carries: the file stem of the
/// path's last segment, the part before its extension, upper-cased; the empty
/// text where that segment has no extension.
pub open spec fn icon_country_code(src: Seq<char>) -> Seq<char> {
    match icon_stem(last_segment(src)) {
        Some(stem) => upper_of(stem),
        None => Seq::empty(),
    }
}

/// The country code that a flag icon's path carries
/// (`https://bgp.he.net/images/flags/us.gif` gives `US`).
pub fn country_code_from_icon(src: &str) -> (r: String)
    ensures
        r@ == icon_country_code(src@),
{
    let file = last_path_segment(src);
    match get_country_code_from_gifurl(file) {
        Some(stem) => uppercase(stem.as_str()),
        None => String::new(),
    }
}

/// The view of an optional text.
pub open spec fn opt_view(s: Option<String>) -> Option<Seq<char>> {
    match s {
        Some(t) => Some(t@),
        None => None,
    }
}

/// The text that an optional text stands for: itself, or the empty text.
pub open spec fn view_or_empty(s: Option<Seq<char>>) -> Seq<char> {
    match s {
        Some(t) => t,
        None => Seq::empty(),
    }
}

/// The text that an optional text stands for: itself, or the empty text.
pub open spec fn or_empty(s: Option<String>) -> Seq<char> {
    match s {
        Some(t) => t@,
        None => Seq::empty(),
    }
}

/// A copy of an optional text, the empty text where it is absent.
pub fn text_or_empty(s: &Option<String>) -> (r: String)
    ensures
        r@ == or_empty(*s),
        r@ == view_or_empty(opt_view(*s)),
{
    match s {
        Some(t) => t.clone(),
        None => String::new(),
    }
}

} // verus!
