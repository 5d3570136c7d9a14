//! Whitespace-separated words of a text and the decimal numbers among them,
//! as `str::split_whitespace` and `u32::from_str` see them.

use vstd::prelude::*;
use vstd::string::*;
use crate::auth::{is_whitespace, unicode_whitespace};
use crate::text::{push_char, string_views};

verus! {

/// The words of `s`, continuing a word `cur` already begun: maximal runs of
/// non-whitespace characters.
pub open spec fn words_from(s: Seq<char>, cur: Seq<char>) -> Seq<Seq<char>>
    decreases s.len(),
{
    if s.len() == 0 {
        if cur.len() > 0 { seq![cur] } else { Seq::empty() }
    } else if unicode_whitespace(s[0]) {
        (if cur.len() > 0 { seq![cur] } else { Seq::empty() }) + words_from(s.drop_first(), Seq::empty())
    } else {
        words_from(s.drop_first(), cur.push(s[0]))
    }
}

/// The whitespace-separated words of `s`, in order.
pub open spec fn words(s: Seq<char>) -> Seq<Seq<char>> {
    words_from(s, Seq::empty())
}

/// Value of a decimal digit character.
pub open spec fn digit_value(c: char) -> int {
    c as int - '0' as int
}

pub open spec fn is_digit(c: char) -> bool {
    '0' as int <= c as int && c as int <= '9' as int
}

/// Value of a sequence of decimal digits.
pub open spec fn digits_value(d: Seq<char>) -> int
    decreases d.len(),
{
    if d.len() == 0 { 0 } else { digits_value(d.drop_last()) * 10 + digit_value(d.last()) }
}

/// `u32::from_str` of `w`: an optional `+` followed by at least one decimal
/// digit, with a value that fits in a `u32`.
pub open spec fn parse_u32(w: Seq<char>) -> Option<u32> {
    let body = unsigned_body(w);
    if body.len() == 0 || !all_digits(body) {
        None
    } else if digits_value(body) > u32::MAX {
        None
    } else {
        Some(digits_value(body) as u32)
    }
}

/// `w` without one leading `+`.
pub open spec fn unsigned_body(w: Seq<char>) -> Seq<char> {
    if w.len() > 0 && w[0] == '+' { w.drop_first() } else { w }
}

pub open spec fn all_digits(d: Seq<char>) -> bool {
    forall|i: int| 0 <= i < d.len() ==> is_digit(#[trigger] d[i])
}

/// The first word of `ws` that is a `u32`, as that number.
pub open spec fn first_number(ws: Seq<Seq<char>>) -> Option<u32>
    decreases ws.len(),
{
    if ws.len() == 0 {
        None
    } else {
        match parse_u32(ws[0]) {
            Some(n) => Some(n),
            None => first_number(ws.drop_first()),
        }
    }
}

proof fn lemma_first_number_concat(a: Seq<Seq<char>>, b: Seq<Seq<char>>)
    ensures
        first_number(a + b) == (match first_number(a) {
            Some(n) => Some(n),
            None => first_number(b),
        }),
    decreases a.len(),
{
    if a.len() > 0 {
        assert((a + b).drop_first() =~= a.drop_first() + b);
        lemma_first_number_concat(a.drop_first(), b);
    } else {
        assert(a + b =~= b);
    }
}

proof fn lemma_digits_nonneg(d: Seq<char>)
    requires
        forall|i: int| 0 <= i < d.len() ==> is_digit(#[trigger] d[i]),
    ensures
        digits_value(d) >= 0,
    decreases d.len(),
{
    if d.len() > 0 {
        assert forall|i: int| 0 <= i < d.drop_last().len() implies is_digit(#[trigger] d.drop_last()[i]) by {
            assert(d.drop_last()[i] == d[i]);
        }
        lemma_digits_nonneg(d.drop_last());
        assert(is_digit(d[d.len() - 1]));
    }
}

/// A longer run of digits is worth at least as much as its prefix.
proof fn lemma_digits_prefix_le(d: Seq<char>, k: int)
    requires
        0 <= k <= d.len(),
        forall|i: int| 0 <= i < d.len() ==> is_digit(#[trigger] d[i]),
    ensures
        digits_value(d.take(k)) <= digits_value(d),
    decreases d.len() - k,
{
    if k < d.len() {
        let t = d.take(k + 1);
        assert(t.drop_last() =~= d.take(k));
        assert forall|i: int| 0 <= i < d.take(k).len() implies is_digit(#[trigger] d.take(k)[i]) by {
            assert(d.take(k)[i] == d[i]);
        }
        lemma_digits_nonneg(d.take(k));
        assert(is_digit(t.last()));
        lemma_digits_prefix_le(d, k + 1);
    } else {
        assert(d.take(k) =~= d);
    }
}

fn char_digit(c: char) -> (v: u64)
    requires
        is_digit(c),
    ensures
        v == digit_value(c),
{
    (c as u32 - '0' as u32) as u64
}

/// `u32::from_str` of `w`, over its characters.
fn parse_word(s: &str, start: usize, end: usize) -> (r: Option<u32>)
    requires
        start <= end <= s@.len(),
    ensures
        r == parse_u32(s@.subrange(start as int, end as int)),
{
    let ghost w = s@.subrange(start as int, end as int);
    let mut b = start;
    if b < end && s.get_char(b) == '+' {
        b = b + 1;
    }
    let ghost body = s@.subrange(b as int, end as int);
    assert(body =~= unsigned_body(w));
    if b == end {
        return None;
    }
    let mut acc: u64 = 0;
    let mut i = b;
    while i < end
        invariant
            start <= b <= i <= end <= s@.len(),
            body == s@.subrange(b as int, end as int),
            w == s@.subrange(start as int, end as int),
            body == unsigned_body(w),
            body.len() > 0,
            forall|j: int| 0 <= j < i - b ==> is_digit(#[trigger] body[j]),
            acc == digits_value(body.take(i - b)),
            acc <= u32::MAX,
        decreases end - i,
    {
        let c = s.get_char(i);
        assert(c == body[i - b]);
        if !(('0' as u32) <= (c as u32) && (c as u32) <= ('9' as u32)) {
            assert(!is_digit(body[i - b]));
            assert(!all_digits(body));
            assert(parse_u32(w) is None);
            return None;
        }
        let ghost t = body.take(i - b + 1);
        assert(t.drop_last() =~= body.take(i - b));
        assert(t.last() == c);
        acc = acc * 10 + char_digit(c);
        assert(acc == digits_value(t));
        if acc > 4294967295 {
            proof {
                if all_digits(body) {
                    lemma_digits_prefix_le(body, i - b + 1);
                    assert(digits_value(body) > u32::MAX);
                }
            }
            assert(parse_u32(w) is None);
            return None;
        }
        i = i + 1;
    }
    assert(body.take(body.len() as int) =~= body);
    Some(acc as u32)
}

/// The first whitespace-separated word of `text` that is a `u32`.
pub fn extract_number(text: &str) -> (r: Option<u32>)
    ensures
        r == first_number(words(text@)),
{
    let n = text.unicode_len();
    let ghost s = text@;
    let ghost mut done: Seq<Seq<char>> = Seq::empty();
    let mut start: usize = 0;
    let mut i: usize = 0;
    assert(s.subrange(0, n as int) =~= s);
    assert(s.subrange(0, 0) =~= Seq::<char>::empty());
    while i < n
        invariant
            s == text@,
            n == s.len(),
            start <= i <= n,
            words(s) == done + words_from(s.subrange(i as int, n as int), s.subrange(start as int, i as int)),
            first_number(done) is None,
        decreases n - i,
    {
        let c = text.get_char(i);
        let ghost rest = s.subrange(i as int, n as int);
        let ghost cur = s.subrange(start as int, i as int);
        assert(rest[0] == c);
        assert(rest.drop_first() =~= s.subrange(i + 1, n as int));
        if is_whitespace(c) {
            if start < i {
                let r = parse_word(text, start, i);
                proof {
                    lemma_first_number_concat(done, seq![cur]);
                    assert(seq![cur].drop_first() =~= Seq::<Seq<char>>::empty());
                    assert(first_number(Seq::<Seq<char>>::empty()) is None);
                    assert(seq![cur][0] == cur);
                }
                assert(first_number(seq![cur]) == parse_u32(cur));
                if r.is_some() {
                    proof {
                        let tail = words_from(s.subrange(i + 1, n as int), Seq::empty());
                        assert(words(s) == done + (seq![cur] + tail));
                        assert(done + (seq![cur] + tail) =~= (done + seq![cur]) + tail);
                        lemma_first_number_concat(done + seq![cur], tail);
                    }
                    return r;
                }
                proof {
                    assert(done + (seq![cur] + words_from(s.subrange(i + 1, n as int), Seq::empty()))
                        =~= (done + seq![cur]) + words_from(s.subrange(i + 1, n as int), Seq::empty()));
                    assert(first_number(done + seq![cur]) is None);
                    done = done + seq![cur];
                }
            } else {
                proof {
                    assert(Seq::<Seq<char>>::empty() + words_from(s.subrange(i + 1, n as int), Seq::empty())
                        =~= words_from(s.subrange(i + 1, n as int), Seq::empty()));
                }
            }
            start = i + 1;
            proof {
                assert(s.subrange((i + 1) as int, (i + 1) as int) =~= Seq::<char>::empty());
            }
        } else {
            proof {
                assert(cur.push(c) =~= s.subrange(start as int, i + 1));
            }
        }
        i = i + 1;
    }
    let ghost cur = s.subrange(start as int, n as int);
    assert(s.subrange(n as int, n as int) =~= Seq::<char>::empty());
    if start < n {
        let r = parse_word(text, start, n);
        proof {
            lemma_first_number_concat(done, seq![cur]);
            assert(seq![cur].drop_first() =~= Seq::<Seq<char>>::empty());
            assert(first_number(Seq::<Seq<char>>::empty()) is None);
            assert(seq![cur][0] == cur);
        }
        r
    } else {
        proof {
            assert(done + Seq::<Seq<char>>::empty() =~= done);
        }
        None
    }
}

/// `u64::from_str` of `w`: an optional `+` followed by at least one decimal
/// digit, with a value that fits in a `u64`.
pub open spec fn parse_u64(w: Seq<char>) -> Option<u64> {
    let body = unsigned_body(w);
    if body.len() == 0 || !all_digits(body) {
        None
    } else if digits_value(body) > u64::MAX {
        None
    } else {
        Some(digits_value(body) as u64)
    }
}

/// `s.parse::<u64>()`, `None` for its error.
pub fn parse_u64_str(s: &str) -> (r: Option<u64>)
    ensures
        r == parse_u64(s@),
{
    let end = s.unicode_len();
    let ghost w = s@;
    let mut b: usize = 0;
    if b < end && s.get_char(b) == '+' {
        b = b + 1;
    }
    let ghost body = s@.subrange(b as int, end as int);
    assert(body =~= unsigned_body(w));
    if b == end {
        return None;
    }
    let mut acc: u128 = 0;
    let mut i = b;
    while i < end
        invariant
            b <= i <= end,
            end == s@.len(),
            w == s@,
            body == s@.subrange(b as int, end as int),
            body == unsigned_body(w),
            body.len() > 0,
            forall|j: int| 0 <= j < i - b ==> is_digit(#[trigger] body[j]),
            acc == digits_value(body.take(i - b)),
            acc <= u64::MAX,
        decreases end - i,
    {
        let c = s.get_char(i);
        assert(c == body[i - b]);
        if !(('0' as u32) <= (c as u32) && (c as u32) <= ('9' as u32)) {
            assert(!is_digit(body[i - b]));
            assert(!all_digits(body));
            assert(parse_u64(w) is None);
            return None;
        }
        let ghost t = body.take(i - b + 1);
        assert(t.drop_last() =~= body.take(i - b));
        assert(t.last() == c);
        acc = acc * 10 + char_digit(c) as u128;
        assert(acc == digits_value(t));
        if acc > 18446744073709551615 {
            proof {
                if all_digits(body) {
                    lemma_digits_prefix_le(body, i - b + 1);
                    assert(digits_value(body) > u64::MAX);
                }
            }
            assert(parse_u64(w) is None);
            return None;
        }
        i = i + 1;
    }
    assert(body.take(body.len() as int) =~= body);
    Some(acc as u64)
}

/// The whitespace-separated words of `s`, in order.
pub fn split_words(s: &str) -> (r: Vec<String>)
    ensures
        string_views(r@) == words(s@),
{
    let n = s.unicode_len();
    let mut out: Vec<String> = Vec::new();
    let mut cur = String::new();
    let mut cur_len: usize = 0;
    let mut i: usize = 0;
    assert(s@.skip(0) =~= s@);
    assert(string_views(out@) + words_from(s@.skip(0), cur@) =~= words(s@));
    while i < n
        invariant
            n == s@.len(),
            i <= n,
            cur_len == cur@.len(),
            cur_len <= i,
            string_views(out@) + words_from(s@.skip(i as int), cur@) == words(s@),
        decreases n - i,
    {
        let c = s.get_char(i);
        let ghost rest = s@.skip(i as int);
        let ghost before = string_views(out@);
        let ghost cur0 = cur@;
        assert(rest[0] == c);
        assert(rest.drop_first() =~= s@.skip(i as int + 1));
        if is_whitespace(c) {
            if cur_len > 0 {
                out.push(cur);
                assert(string_views(out@) =~= before.push(cur0));
                assert(before + (seq![cur0] + words_from(s@.skip(i as int + 1), Seq::empty()))
                    =~= before.push(cur0) + words_from(s@.skip(i as int + 1), Seq::empty()));
            } else {
                assert(Seq::<Seq<char>>::empty() + words_from(s@.skip(i as int + 1), Seq::empty())
                    =~= words_from(s@.skip(i as int + 1), Seq::empty()));
            }
            cur = String::new();
            cur_len = 0;
            assert(cur@ =~= Seq::<char>::empty());
        } else {
            push_char(&mut cur, c);
            cur_len = cur_len + 1;
        }
        i = i + 1;
    }
    assert(s@.skip(n as int) =~= Seq::<char>::empty());
    if cur_len > 0 {
        let ghost before = string_views(out@);
        let ghost cur0 = cur@;
        out.push(cur);
        assert(string_views(out@) =~= before.push(cur0));
        assert(before + seq![cur0] =~= before.push(cur0));
    } else {
        assert(string_views(out@) + Seq::<Seq<char>>::empty() =~= string_views(out@));
    }
    out
}

} // verus!
