//! Canonicalisation of a result link. The engine's markup frequently wraps
//! the destination in a redirect URL that carries the true target,
//! percent-encoded, in a `uddg` query parameter; this module decodes it.
//! A scheme-relative link is completed with the scheme instead.

use vstd::prelude::*;
use vstd::string::StrSliceExecFns;
use vstd::string::StringExecFns;

verus! {

/// Relies on String::push: appends the given character to the end of the
/// string.
pub assume_specification[ String::push ](s: &mut String, ch: char)
    ensures
        final(s)@ == old(s)@.push(ch),
;

pub open spec fn is_hex_digit(c: char) -> bool {
    ('0' <= c && c <= '9') || ('a' <= c && c <= 'f') || ('A' <= c && c <= 'F')
}

/// The numeric value of a hex digit; meaningful only on hex digits.
pub open spec fn hex_digit_value(c: char) -> int {
    if '0' <= c && c <= '9' {
        c as int - 48
    } else if 'a' <= c && c <= 'f' {
        c as int - 87
    } else {
        c as int - 55
    }
}

/// The character a `%hh` escape with hex digits `hi`, `lo` decodes to.
pub open spec fn decoded_char(hi: char, lo: char) -> char {
    (((hex_digit_value(hi) * 16 + hex_digit_value(lo)) as u8) as char)
}

/// Percent-decoding over characters: a `%hh` escape whose value is ASCII
/// becomes that character, `+` becomes a space, and everything else — a
/// stray `%`, a non-hex escape, or an escape above the ASCII range — is
/// kept as written.
pub open spec fn pct_decoded(s: Seq<char>) -> Seq<char>
    decreases s.len(),
{
    if s.len() == 0 {
        Seq::empty()
    } else if s.len() >= 3 && s[0] == '%' && is_hex_digit(s[1]) && is_hex_digit(s[2])
        && hex_digit_value(s[1]) * 16 + hex_digit_value(s[2]) < 128 {
        seq![decoded_char(s[1], s[2])] + pct_decoded(s.skip(3))
    } else if s[0] == '+' {
        seq![' '] + pct_decoded(s.skip(1))
    } else {
        seq![s[0]] + pct_decoded(s.skip(1))
    }
}

/// The prefix of `s` up to, and not including, the first `&`.
pub open spec fn take_until_amp(s: Seq<char>) -> Seq<char>
    decreases s.len(),
{
    if s.len() == 0 {
        Seq::empty()
    } else if s[0] == '&' {
        Seq::empty()
    } else {
        seq![s[0]] + take_until_amp(s.skip(1))
    }
}

pub open spec fn uddg_key() -> Seq<char> {
    "uddg="@
}

/// Scans a query string for a `uddg=` parameter. `at_start` says whether the
/// scan stands at the start of a parameter, that is at the start of the
/// query or right after a `&`; the key matches only there.
pub open spec fn uddg_param_from(q: Seq<char>, at_start: bool) -> Option<Seq<char>>
    decreases q.len(),
{
    if q.len() == 0 {
        None
    } else if at_start && q.len() >= 5 && q.take(5) == uddg_key() {
        Some(take_until_amp(q.skip(5)))
    } else {
        uddg_param_from(q.skip(1), q[0] == '&')
    }
}

/// The raw (still percent-encoded) value of the first `uddg` parameter of a
/// query string, if there is one.
pub open spec fn uddg_param(q: Seq<char>) -> Option<Seq<char>> {
    uddg_param_from(q, true)
}

/// Everything after the first `?`, or nothing when there is no `?`.
pub open spec fn after_question(s: Seq<char>) -> Option<Seq<char>>
    decreases s.len(),
{
    if s.len() == 0 {
        None
    } else if s[0] == '?' {
        Some(s.skip(1))
    } else {
        after_question(s.skip(1))
    }
}

/// The raw `uddg` value carried by a redirect href, if any.
pub open spec fn href_uddg(href: Seq<char>) -> Option<Seq<char>> {
    match after_question(href) {
        Some(q) => uddg_param(q),
        None => None,
    }
}

/// A scheme-relative link: one that starts with `//`.
pub open spec fn scheme_relative(href: Seq<char>) -> bool {
    href.len() >= 2 && href[0] == '/' && href[1] == '/'
}

pub open spec fn https_scheme() -> Seq<char> {
    "https:"@
}

/// The canonical destination of a raw result href: the percent-decoded
/// `uddg` parameter when the href is a redirect URL carrying one; otherwise
/// the href itself, completed with the scheme when it is scheme-relative.
pub open spec fn canonical_of(href: Seq<char>) -> Seq<char> {
    match href_uddg(href) {
        Some(v) => pct_decoded(v),
        None => if scheme_relative(href) {
            https_scheme() + href
        } else {
            href
        },
    }
}

fn is_hex(c: char) -> (r: bool)
    ensures
        r == is_hex_digit(c),
{
    ('0' <= c && c <= '9') || ('a' <= c && c <= 'f') || ('A' <= c && c <= 'F')
}

fn hex_value(c: char) -> (r: u32)
    requires
        is_hex_digit(c),
    ensures
        r == hex_digit_value(c),
{
    let u: u32 = c as u32;
    if c >= '0' && c <= '9' {
        u - 48
    } else if c >= 'a' && c <= 'f' {
        u - 87
    } else {
        u - 55
    }
}

/// Percent-decode a string: ASCII `%hh` escapes and `+` are decoded,
/// anything malformed is kept as written.
pub fn percent_decode(s: &str) -> (r: String)
    ensures
        r@ == pct_decoded(s@),
{
    let n: usize = s.unicode_len();
    let mut r = String::new();
    let mut i: usize = 0;
    proof {
        assert(s@.skip(0) =~= s@);
    }
    while i < n
        invariant
            n == s@.len(),
            i <= n,
            pct_decoded(s@) == r@ + pct_decoded(s@.skip(i as int)),
        decreases n - i,
    {
        let c = s.get_char(i);
        let ghost rest = s@.skip(i as int);
        if c == '%' && n - i >= 3 {
            let d1 = s.get_char(i + 1);
            let d2 = s.get_char(i + 2);
            if is_hex(d1) && is_hex(d2) {
                let v: u32 = hex_value(d1) * 16 + hex_value(d2);
                if v < 128 {
                    let ch = (v as u8) as char;
                    r.push(ch);
                    proof {
                        assert(rest.skip(3) =~= s@.skip(i + 3));
                        assert(pct_decoded(rest) == seq![ch] + pct_decoded(rest.skip(3)));
                        assert(pct_decoded(s@) =~= r@ + pct_decoded(s@.skip(i + 3)));
                    }
                    i = i + 3;
                } else {
                    r.push(c);
                    proof {
                        assert(rest.skip(1) =~= s@.skip(i + 1));
                        assert(pct_decoded(s@) =~= r@ + pct_decoded(s@.skip(i + 1)));
                    }
                    i = i + 1;
                }
            } else {
                r.push(c);
                proof {
                    assert(rest.skip(1) =~= s@.skip(i + 1));
                    assert(pct_decoded(s@) =~= r@ + pct_decoded(s@.skip(i + 1)));
                }
                i = i + 1;
            }
        } else if c == '+' {
            r.push(' ');
            proof {
                assert(rest.skip(1) =~= s@.skip(i + 1));
                assert(pct_decoded(s@) =~= r@ + pct_decoded(s@.skip(i + 1)));
            }
            i = i + 1;
        } else {
            r.push(c);
            proof {
                assert(rest.skip(1) =~= s@.skip(i + 1));
                assert(pct_decoded(s@) =~= r@ + pct_decoded(s@.skip(i + 1)));
            }
            i = i + 1;
        }
    }
    proof {
        assert(s@.skip(n as int) =~= Seq::<char>::empty());
        assert(r@ =~= pct_decoded(s@));
    }
    r
}

/// The least index `r` in `[start, len]` with `s[r] == '&'`, or the length
/// when no `&` follows.
fn find_amp(s: &str, start: usize, n: usize) -> (r: usize)
    requires
        n == s@.len(),
        start <= n,
    ensures
        start <= r <= n,
        forall|k: int| start <= k < r ==> s@[k] != '&',
        r < n ==> s@[r as int] == '&',
{
    let mut j: usize = start;
    while j < n
        invariant
            n == s@.len(),
            start <= j <= n,
            forall|k: int| start <= k < j ==> s@[k] != '&',
        decreases n - j,
    {
        if s.get_char(j) == '&' {
            return j;
        }
        j = j + 1;
    }
    j
}

/// When no `&` stands in `[start, end)` and `end` is the length or an `&`,
/// the prefix up to the first `&` of the suffix at `start` is exactly the
/// range `[start, end)`.
proof fn lemma_take_until_amp_range(s: Seq<char>, start: int, end: int)
    requires
        0 <= start <= end <= s.len(),
        forall|k: int| start <= k < end ==> s[k] != '&',
        end < s.len() ==> s[end] == '&',
    ensures
        take_until_amp(s.skip(start)) == s.subrange(start, end),
    decreases end - start,
{
    if start == end {
        assert(s.subrange(start, end) =~= Seq::<char>::empty());
        if end == s.len() {
            assert(s.skip(start) =~= Seq::<char>::empty());
        } else {
            assert(s.skip(start)[0] == s[start]);
        }
    } else {
        lemma_take_until_amp_range(s, start + 1, end);
        assert(s.skip(start).skip(1) =~= s.skip(start + 1));
        assert(take_until_amp(s.skip(start)) == seq![s[start]] + take_until_amp(
            s.skip(start + 1),
        ));
        assert(s.subrange(start, end) =~= seq![s[start]] + s.subrange(start + 1, end));
    }
}

/// Look up the raw value of the first `uddg` parameter in a query string.
fn find_uddg(q: &str) -> (r: Option<String>)
    ensures
        r.deep_view() == uddg_param(q@),
{
    let n: usize = q.unicode_len();
    let mut i: usize = 0;
    let mut at_start = true;
    proof {
        assert(q@.skip(0) =~= q@);
    }
    while i < n
        invariant
            n == q@.len(),
            i <= n,
            uddg_param(q@) == uddg_param_from(q@.skip(i as int), at_start),
        decreases n - i,
    {
        let ghost rest = q@.skip(i as int);
        let c = q.get_char(i);
        let mut matched = false;
        if at_start && n - i >= 5 {
            if c == 'u' && q.get_char(i + 1) == 'd' && q.get_char(i + 2) == 'd' && q.get_char(
                i + 3,
            ) == 'g' && q.get_char(i + 4) == '=' {
                matched = true;
                proof {
                    reveal_strlit("uddg=");
                    assert(rest.take(5) =~= uddg_key());
                }
            } else {
                proof {
                    reveal_strlit("uddg=");
                    if rest.take(5) == uddg_key() {
                        assert(rest.take(5)[0] == 'u');
                        assert(rest.take(5)[1] == 'd');
                        assert(rest.take(5)[2] == 'd');
                        assert(rest.take(5)[3] == 'g');
                        assert(rest.take(5)[4] == '=');
                    }
                    assert(rest.take(5) != uddg_key());
                }
            }
        }
        if matched {
            let start: usize = i + 5;
            let end: usize = find_amp(q, start, n);
            let value = q.substring_char(start, end);
            proof {
                lemma_take_until_amp_range(q@, start as int, end as int);
                assert(rest.skip(5) =~= q@.skip(start as int));
                assert(uddg_param(q@) == Some(take_until_amp(rest.skip(5))));
            }
            return Some(value.to_owned());
        }
        proof {
            assert(rest.skip(1) =~= q@.skip(i + 1));
            assert(rest[0] == q@[i as int]);
        }
        at_start = c == '&';
        i = i + 1;
    }
    proof {
        assert(q@.skip(n as int) =~= Seq::<char>::empty());
    }
    None
}

/// The position right after the first `?`, or the length when there is none.
fn find_question(s: &str, n: usize) -> (r: Option<usize>)
    requires
        n == s@.len(),
    ensures
        match r {
            Some(j) => 1 <= j <= n && after_question(s@) == Some(s@.skip(j as int)),
            None => after_question(s@) is None,
        },
{
    let mut i: usize = 0;
    proof {
        assert(s@.skip(0) =~= s@);
    }
    while i < n
        invariant
            n == s@.len(),
            i <= n,
            after_question(s@) == after_question(s@.skip(i as int)),
        decreases n - i,
    {
        let ghost rest = s@.skip(i as int);
        if s.get_char(i) == '?' {
            proof {
                assert(rest.skip(1) =~= s@.skip(i + 1));
            }
            return Some(i + 1);
        }
        proof {
            assert(rest.skip(1) =~= s@.skip(i + 1));
        }
        i = i + 1;
    }
    proof {
        assert(s@.skip(n as int) =~= Seq::<char>::empty());
    }
    None
}

/// Turn a raw result href into the canonical destination URL: decode the
/// `uddg` redirect parameter when it is there, otherwise complete a
/// scheme-relative link with the scheme, otherwise keep the href as it is.
pub fn canonical_url(href: &str) -> (r: String)
    ensures
        r@ == canonical_of(href@),
{
    let n: usize = href.unicode_len();
    let q = find_question(href, n);
    if let Some(j) = q {
        let query = href.substring_char(j, n);
        proof {
            assert(query@ =~= href@.skip(j as int));
        }
        if let Some(raw) = find_uddg(query) {
            return percent_decode(raw.as_str());
        }
    }
    if n >= 2 && href.get_char(0) == '/' && href.get_char(1) == '/' {
        let mut out = "https:".to_owned();
        out.append(href);
        proof {
            reveal_strlit("https:");
            assert(out@ =~= https_scheme() + href@);
        }
        out
    } else {
        href.to_owned()
    }
}

} // verus!
