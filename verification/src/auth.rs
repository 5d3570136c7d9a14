//! Input validation for infrastructure operations: hostnames and commands
//! that may be sent to a node over SSH; the auth error type; and the
//! per-minute rate limiter of API keys.

use vstd::prelude::*;
use vstd::string::*;
use crate::text::{owned, push_char, push_str, has_prefix, starts_with, str_equal};
use crate::sources::{clock_millis, now_millis};

verus! {

/// Errors from the auth subsystem.
#[derive(Debug)]
pub enum AuthError {
    KeyAlreadyExists(String),
    KeyNotFound(String),
    /// Expiry instant, in milliseconds since the Unix epoch.
    TokenExpired(i64),
    RateLimitExceeded(u32),
    InvalidInput(String),
}

/// The error as an optional message: `Some(m)` exactly when `r` is an
/// `InvalidInput(m)` error.
pub open spec fn invalid_input_message(r: Result<(), AuthError>) -> Option<Seq<char>> {
    match r {
        Ok(()) => None,
        Err(AuthError::InvalidInput(m)) => Some(m@),
        Err(_) => Some(Seq::empty()),
    }
}

/// Validates user-supplied strings for safe use in infrastructure operations.
pub struct InputSanitizer;

// ─── Character classes ───────────────────────────────────────────────────────

/// ASCII letter or digit.
pub open spec fn ascii_alphanumeric(c: char) -> bool {
    ('a' as u32 <= c as u32 && c as u32 <= 'z' as u32)
    || ('A' as u32 <= c as u32 && c as u32 <= 'Z' as u32)
    || ('0' as u32 <= c as u32 && c as u32 <= '9' as u32)
}

fn is_ascii_alphanumeric(c: char) -> (r: bool)
    ensures
        r == ascii_alphanumeric(c),
{
    let u = c as u32;
    ('a' as u32 <= u && u <= 'z' as u32) || ('A' as u32 <= u && u <= 'Z' as u32) || ('0' as u32
        <= u && u <= '9' as u32)
}

/// The Unicode White_Space property, which `char::is_whitespace` tests:
/// U+0009 to U+000D, U+0020, U+0085, U+00A0, U+1680, U+2000 to U+200A,
/// U+2028, U+2029, U+202F, U+205F and U+3000.
pub open spec fn unicode_whitespace(c: char) -> bool {
    let u = c as u32;
    (0x09 <= u <= 0x0D) || u == 0x20 || u == 0x85 || u == 0xA0 || u == 0x1680 || (0x2000 <= u <= 0x200A)
        || u == 0x2028 || u == 0x2029 || u == 0x202F || u == 0x205F || u == 0x3000
}

/// Whether `c` is white space, as `char::is_whitespace` answers.
pub(crate) fn is_whitespace(c: char) -> (r: bool)
    ensures
        r == unicode_whitespace(c),
{
    let u = c as u32;
    (0x09 <= u && u <= 0x0D) || u == 0x20 || u == 0x85 || u == 0xA0 || u == 0x1680 || (0x2000 <= u && u <= 0x200A)
        || u == 0x2028 || u == 0x2029 || u == 0x202F || u == 0x205F || u == 0x3000
}

// ─── Trimming ────────────────────────────────────────────────────────────────

/// `s` without its leading whitespace.
pub open spec fn trim_start(s: Seq<char>) -> Seq<char>
    decreases s.len(),
{
    if s.len() > 0 && unicode_whitespace(s[0]) {
        trim_start(s.drop_first())
    } else {
        s
    }
}

/// `s` without its trailing whitespace.
pub open spec fn trim_end(s: Seq<char>) -> Seq<char>
    decreases s.len(),
{
    if s.len() > 0 && unicode_whitespace(s.last()) {
        trim_end(s.drop_last())
    } else {
        s
    }
}

/// `s` without leading and trailing whitespace, as `str::trim` gives it.
pub open spec fn trimmed(s: Seq<char>) -> Seq<char> {
    trim_end(trim_start(s))
}

proof fn lemma_trim_start_skip(s: Seq<char>, i: int)
    requires
        0 <= i <= s.len(),
        forall|j: int| 0 <= j < i ==> unicode_whitespace(#[trigger] s[j]),
    ensures
        trim_start(s) == trim_start(s.subrange(i, s.len() as int)),
    decreases i,
{
    if i > 0 {
        let t = s.drop_first();
        assert forall|j: int| 0 <= j < i - 1 implies unicode_whitespace(#[trigger] t[j]) by {
            assert(t[j] == s[j + 1]);
        }
        lemma_trim_start_skip(t, i - 1);
        assert(t.subrange(i - 1, t.len() as int) =~= s.subrange(i, s.len() as int));
    } else {
        assert(s.subrange(0, s.len() as int) =~= s);
    }
}

proof fn lemma_trim_end_skip(s: Seq<char>, e: int)
    requires
        0 <= e <= s.len(),
        forall|j: int| e <= j < s.len() ==> unicode_whitespace(#[trigger] s[j]),
    ensures
        trim_end(s) == trim_end(s.subrange(0, e)),
    decreases s.len() - e,
{
    if e < s.len() {
        let t = s.drop_last();
        assert forall|j: int| e <= j < t.len() implies unicode_whitespace(#[trigger] t[j]) by {
            assert(t[j] == s[j]);
        }
        lemma_trim_end_skip(t, e);
        assert(t.subrange(0, e) =~= s.subrange(0, e));
    } else {
        assert(s.subrange(0, e) =~= s);
    }
}

/// `s` with leading and trailing whitespace removed.
fn trim(s: &str) -> (r: &str)
    ensures
        r@ == trimmed(s@),
{
    let n = s.unicode_len();
    let mut b: usize = 0;
    while b < n && is_whitespace(s.get_char(b))
        invariant
            n == s@.len(),
            b <= n,
            forall|j: int| 0 <= j < b ==> unicode_whitespace(#[trigger] s@[j]),
        decreases n - b,
    {
        b = b + 1;
    }
    proof {
        lemma_trim_start_skip(s@, b as int);
    }
    let ghost mid = s@.subrange(b as int, n as int);
    assert(b < n ==> !unicode_whitespace(mid[0]));
    assert(trim_start(s@) == mid);
    let mut e: usize = n;
    while e > b && is_whitespace(s.get_char(e - 1))
        invariant
            n == s@.len(),
            b <= e <= n,
            mid == s@.subrange(b as int, n as int),
            forall|j: int| e <= j < n ==> unicode_whitespace(#[trigger] s@[j]),
        decreases e,
    {
        e = e - 1;
    }
    proof {
        assert forall|j: int| e - b <= j < mid.len() implies unicode_whitespace(#[trigger] mid[j]) by {
            assert(mid[j] == s@[b + j]);
        }
        lemma_trim_end_skip(mid, e - b);
        let t = mid.subrange(0, e - b);
        assert(t =~= s@.subrange(b as int, e as int));
        if t.len() > 0 {
            assert(t.last() == s@[e - 1]);
        }
        assert(trim_end(t) == t);
    }
    s.substring_char(b, e)
}

// ─── Hostnames ───────────────────────────────────────────────────────────────

/// The pieces of `s` between occurrences of `sep` (one more piece than there
/// are separators).
pub open spec fn split_on(s: Seq<char>, sep: char) -> Seq<Seq<char>>
    decreases s.len(),
{
    if s.len() == 0 {
        seq![Seq::empty()]
    } else {
        let rest = split_on(s.drop_last(), sep);
        if s.last() == sep {
            rest.push(Seq::empty())
        } else {
            rest.update(rest.len() - 1, rest.last().push(s.last()))
        }
    }
}

proof fn lemma_split_nonempty(s: Seq<char>, sep: char)
    ensures
        split_on(s, sep).len() >= 1,
    decreases s.len(),
{
    if s.len() > 0 {
        lemma_split_nonempty(s.drop_last(), sep);
    }
}

/// The problem with one hostname label, if any, as the error message.
pub open spec fn label_problem(l: Seq<char>) -> Option<Seq<char>> {
    if l.len() == 0 {
        Some("hostname has empty label (consecutive dots)"@)
    } else if l[0] == '-' || l.last() == '-' {
        Some("hostname label '"@ + l + "' starts or ends with hyphen"@)
    } else if !(forall|i: int| 0 <= i < l.len() ==> ascii_alphanumeric(#[trigger] l[i]) || l[i] == '-') {
        Some("hostname label '"@ + l + "' contains invalid characters"@)
    } else {
        None
    }
}

/// The problem with the first faulty label, if any.
pub open spec fn first_label_problem(ls: Seq<Seq<char>>) -> Option<Seq<char>>
    decreases ls.len(),
{
    if ls.len() == 0 {
        None
    } else {
        match first_label_problem(ls.drop_last()) {
            Some(m) => Some(m),
            None => label_problem(ls.last()),
        }
    }
}

/// Why `h` is not an acceptable hostname, or `None` when it is: it must be
/// non-empty, at most 253 bytes, and each dot-separated label must be
/// non-empty, not start or end with `-`, and consist of ASCII letters,
/// digits and `-`.
pub open spec fn hostname_problem(h: &str) -> Option<Seq<char>> {
    if h@.len() == 0 {
        Some("hostname is empty"@)
    } else if h.len() > 253 {
        Some("hostname exceeds 253 characters"@)
    } else {
        first_label_problem(split_on(h@, '.'))
    }
}

/// The message `prefix + label + suffix`.
fn label_message(prefix: &str, label: &str, suffix: &str) -> (m: String)
    ensures
        m@ == prefix@ + label@ + suffix@,
{
    let mut m = owned(prefix);
    push_str(&mut m, label);
    push_str(&mut m, suffix);
    m
}

/// Checks one label, returning its problem as an error message.
fn check_label(label: &str) -> (r: Option<String>)
    ensures
        match r {
            Some(m) => label_problem(label@) == Some(m@),
            None => label_problem(label@) is None,
        },
{
    let n = label.unicode_len();
    if n == 0 {
        return Some(owned("hostname has empty label (consecutive dots)"));
    }
    if label.get_char(0) == '-' || label.get_char(n - 1) == '-' {
        return Some(label_message("hostname label '", label, "' starts or ends with hyphen"));
    }
    let mut i: usize = 0;
    while i < n
        invariant
            n == label@.len(),
            n > 0,
            label@[0] != '-',
            label@.last() != '-',
            i <= n,
            forall|j: int| 0 <= j < i ==> ascii_alphanumeric(#[trigger] label@[j]) || label@[j] == '-',
        decreases n - i,
    {
        let c = label.get_char(i);
        if !(is_ascii_alphanumeric(c) || c == '-') {
            assert(!(ascii_alphanumeric(label@[i as int]) || label@[i as int] == '-'));
            return Some(label_message("hostname label '", label, "' contains invalid characters"));
        }
        i = i + 1;
    }
    None
}

impl InputSanitizer {
    /// Validate a hostname: must be non-empty, at most 253 bytes, consist
    /// only of ASCII alphanumerics, hyphens, and dots, with no empty label
    /// and no label starting or ending with a hyphen.
    pub fn validate_hostname(hostname: &str) -> (r: Result<(), AuthError>)
        ensures
            r is Ok <==> hostname_problem(hostname) is None,
            r is Err ==> r->Err_0 is InvalidInput,
            invalid_input_message(r) == hostname_problem(hostname),
    {
        if hostname.is_empty() {
            return Err(AuthError::InvalidInput(owned("hostname is empty")));
        }
        if hostname.len() > 253 {
            return Err(AuthError::InvalidInput(owned("hostname exceeds 253 characters")));
        }
        let n = hostname.unicode_len();
        let ghost s = hostname@;
        let ghost mut done: Seq<Seq<char>> = Seq::empty();
        let mut start: usize = 0;
        let mut i: usize = 0;
        proof {
            assert(s.take(0) =~= Seq::<char>::empty());
            assert(split_on(s.take(0), '.') =~= seq![s.subrange(0, 0)]);
            assert(done.push(s.subrange(0, 0)) =~= seq![s.subrange(0, 0)]);
        }
        while i < n
            invariant
                n == s.len(),
                s == hostname@,
                s.len() > 0,
                hostname.len() <= 253,
                start <= i <= n,
                split_on(s.take(i as int), '.') == done.push(s.subrange(start as int, i as int)),
                first_label_problem(done) is None,
            decreases n - i,
        {
            let c = hostname.get_char(i);
            let ghost cur = s.subrange(start as int, i as int);
            proof {
                assert(s.take(i + 1).drop_last() =~= s.take(i as int));
                assert(s.take(i + 1).last() == c);
            }
            if c == '.' {
                let label = hostname.substring_char(start, i);
                let problem = check_label(label);
                match problem {
                    Some(m) => {
                        proof {
                            assert(done.push(cur).drop_last() =~= done);
                            assert(first_label_problem(done.push(cur)) == Some(m@));
                            assert(s.take(i + 1).drop_last() =~= s.take(i as int));
                            assert(split_on(s.take(i + 1), '.') == done.push(cur).push(Seq::empty()));
                            assert(done.push(cur).push(Seq::<char>::empty()).drop_last() =~= done.push(cur));
                            lemma_completed_problem(s, i + 1, m@);
                        }
                        return Err(AuthError::InvalidInput(m));
                    },
                    None => {},
                }
                proof {
                    assert(done.push(cur).drop_last() =~= done);
                    done = done.push(cur);
                    assert(s.subrange((i + 1) as int, (i + 1) as int) =~= Seq::<char>::empty());
                }
                start = i + 1;
            } else {
                proof {
                    assert(s.subrange(start as int, i + 1) =~= cur.push(c));
                    assert(done.push(cur).update(done.len() as int, cur.push(c)) =~= done.push(cur.push(c)));
                }
            }
            i = i + 1;
        }
        let label = hostname.substring_char(start, n);
        proof {
            assert(s.take(n as int) =~= s);
            assert(done.push(s.subrange(start as int, n as int)).drop_last() =~= done);
        }
        match check_label(label) {
            Some(m) => Err(AuthError::InvalidInput(m)),
            None => Ok(()),
        }
    }
}

// ─── Commands ────────────────────────────────────────────────────────────────

/// Shell metacharacters a command may not contain, in the order they are
/// checked.
pub open spec fn forbidden_chars() -> Seq<char> {
    seq![';', '|', '`', '$', '&', '>', '<', '(', ')', '{', '}']
}

/// The first character of `fs` that occurs in `s`.
pub open spec fn first_contained(s: Seq<char>, fs: Seq<char>) -> Option<char>
    decreases fs.len(),
{
    if fs.len() == 0 {
        None
    } else if s.contains(fs[0]) {
        Some(fs[0])
    } else {
        first_contained(s, fs.drop_first())
    }
}

/// Command prefixes that may be executed.
pub open spec fn allowed_prefixes() -> Seq<Seq<char>> {
    seq![
        "systemctl "@, "systemctl"@, "docker "@, "docker"@, "journalctl"@, "df "@, "df"@,
        "free"@, "uptime"@, "cat /proc/"@, "ls "@, "ls"@, "ps "@, "ps"@, "openclaw"@,
        "tailscale"@, "hostname"@, "uname"@, "whoami"@, "date"@, "id"@,
    ]
}

/// Whether `t` starts with one of the allowed prefixes.
pub open spec fn allowed_command(t: Seq<char>) -> bool {
    exists|k: int| 0 <= k < allowed_prefixes().len() && has_prefix(t, #[trigger] allowed_prefixes()[k])
}

/// Why `c` may not be run, or `None` when it may: it must be non-empty,
/// contain no shell metacharacter and no newline, carriage return or NUL,
/// and, trimmed, start with an allowed prefix.
pub open spec fn command_problem(c: Seq<char>) -> Option<Seq<char>> {
    if c.len() == 0 {
        Some("command is empty"@)
    } else if first_contained(c, forbidden_chars()) is Some {
        Some("command contains forbidden metacharacter '"@
            + seq![first_contained(c, forbidden_chars())->0] + "'"@)
    } else if c.contains('\n') || c.contains('\r') || c.contains('\0') {
        Some("command contains control characters"@)
    } else if allowed_command(trimmed(c)) {
        None
    } else {
        Some("command '"@ + trimmed(c) + "' is not in the allowed command list"@)
    }
}

impl InputSanitizer {
    /// Validate a command for safe SSH execution: rejects shell
    /// metacharacters and control characters, and requires the trimmed
    /// command to start with an allowed prefix.
    pub fn validate_command(command: &str) -> (r: Result<(), AuthError>)
        ensures
            r is Ok <==> command_problem(command@) is None,
            r is Err ==> r->Err_0 is InvalidInput,
            invalid_input_message(r) == command_problem(command@),
    {
        if command.is_empty() {
            return Err(AuthError::InvalidInput(owned("command is empty")));
        }
        let forbidden: [char; 11] = [';', '|', '`', '$', '&', '>', '<', '(', ')', '{', '}'];
        assert(forbidden@ =~= forbidden_chars());
        assert(forbidden_chars().subrange(0, 11) =~= forbidden_chars());
        let mut k: usize = 0;
        while k < 11
            invariant
                forbidden@ == forbidden_chars(),
                k <= 11,
                first_contained(command@, forbidden_chars())
                    == first_contained(command@, forbidden_chars().subrange(k as int, 11)),
            decreases 11 - k,
        {
            let ch = forbidden[k];
            let ghost rest = forbidden_chars().subrange(k as int, 11);
            assert(rest[0] == ch);
            assert(rest.drop_first() =~= forbidden_chars().subrange(k + 1, 11));
            if crate::text::contains_char(command, ch) {
                let mut m = owned("command contains forbidden metacharacter '");
                push_char(&mut m, ch);
                push_str(&mut m, "'");
                assert(("command contains forbidden metacharacter '"@).push(ch) =~=
                    "command contains forbidden metacharacter '"@ + seq![ch]);
                return Err(AuthError::InvalidInput(m));
            }
            k = k + 1;
        }
        assert(forbidden_chars().subrange(11, 11).len() == 0);
        if crate::text::contains_char(command, '\n') || crate::text::contains_char(command, '\r')
            || crate::text::contains_char(command, '\0') {
            return Err(AuthError::InvalidInput(owned("command contains control characters")));
        }
        let t = trim(command);
        let allowed: [&str; 21] = [
            "systemctl ", "systemctl", "docker ", "docker", "journalctl", "df ", "df", "free",
            "uptime", "cat /proc/", "ls ", "ls", "ps ", "ps", "openclaw", "tailscale", "hostname",
            "uname", "whoami", "date", "id",
        ];
        assert(allowed@.map_values(|p: &str| p@) =~= allowed_prefixes());
        let mut j: usize = 0;
        while j < 21
            invariant
                allowed@.map_values(|p: &str| p@) == allowed_prefixes(),
                t@ == trimmed(command@),
                command@.len() > 0,
                first_contained(command@, forbidden_chars()) is None,
                !(command@.contains('\n') || command@.contains('\r') || command@.contains('\0')),
                j <= 21,
                forall|q: int| 0 <= q < j ==> !has_prefix(t@, #[trigger] allowed_prefixes()[q]),
            decreases 21 - j,
        {
            assert(allowed@.map_values(|p: &str| p@)[j as int] == allowed[j as int]@);
            if starts_with(t, allowed[j]) {
                assert(has_prefix(t@, allowed_prefixes()[j as int]));
                return Ok(());
            }
            j = j + 1;
        }
        let mut m = owned("command '");
        push_str(&mut m, t);
        push_str(&mut m, "' is not in the allowed command list");
        Err(AuthError::InvalidInput(m))
    }
}

/// A problem among the completed labels of a prefix of `s` is the first
/// problem of `s` itself: later characters only extend the last label or
/// start new ones.
proof fn lemma_completed_problem(s: Seq<char>, k: int, m: Seq<char>)
    requires
        0 <= k <= s.len(),
        first_label_problem(split_on(s.take(k), '.').drop_last()) == Some(m),
    ensures
        first_label_problem(split_on(s, '.')) == Some(m),
    decreases s.len() - k,
{
    lemma_split_nonempty(s.take(k), '.');
    let rest = split_on(s.take(k), '.');
    if k < s.len() {
        let t = s.take(k + 1);
        assert(t.drop_last() =~= s.take(k));
        if t.last() == '.' {
            assert(rest.push(Seq::empty()).drop_last() =~= rest);
            assert(rest.drop_last() == rest.drop_last());
        } else {
            assert(rest.update(rest.len() - 1, rest.last().push(t.last())).drop_last()
                =~= rest.drop_last());
        }
        lemma_completed_problem(s, k + 1, m);
    } else {
        assert(s.take(k) =~= s);
    }
}

// ─── Rate limiter ────────────────────────────────────────────────────────────

/// The calls recorded under one key, in milliseconds since the Unix epoch.
pub struct CallWindow {
    pub key: String,
    pub calls: Vec<i64>,
}

/// Position of the first window with key `k`.
pub open spec fn window_position(s: Seq<CallWindow>, k: Seq<char>) -> Option<int> {
    if exists|i: int| 0 <= i < s.len() && #[trigger] s[i].key@ == k
        && forall|j: int| 0 <= j < i ==> s[j].key@ != k {
        Some(choose|i: int| 0 <= i < s.len() && #[trigger] s[i].key@ == k
            && forall|j: int| 0 <= j < i ==> s[j].key@ != k)
    } else {
        None
    }
}

/// The calls recorded under `k`.
pub open spec fn calls_under(s: Seq<CallWindow>, k: Seq<char>) -> Seq<i64> {
    match window_position(s, k) {
        Some(i) => s[i].calls@,
        None => Seq::empty(),
    }
}

/// The calls of `c` made in the 60 seconds before `now` (strictly after
/// `now - 60 s`), in order.
pub open spec fn recent_calls(c: Seq<i64>, now: i64) -> Seq<i64>
    decreases c.len(),
{
    if c.len() == 0 {
        Seq::empty()
    } else if c.last() > now - 60000 {
        recent_calls(c.drop_last(), now).push(c.last())
    } else {
        recent_calls(c.drop_last(), now)
    }
}

/// `after` is `before` with the calls older than 60 seconds at `now`
/// forgotten and the call at `now` added; the answer is the capacity left,
/// or `RateLimitExceeded(limit)` once the window holds more than `limit`
/// calls.
pub open spec fn call_recorded(before: Seq<i64>, after: Seq<i64>, limit: u32, now: i64, r: Result<u32, AuthError>)
    -> bool
{
    let kept = recent_calls(before, now);
    &&& after == kept.push(now)
    &&& if kept.len() + 1 > limit {
        r matches Err(AuthError::RateLimitExceeded(l)) && l == limit
    } else {
        r == Ok::<u32, AuthError>((limit - (kept.len() + 1)) as u32)
    }
}

/// Forgetting old calls never adds any.
pub proof fn lemma_recent_calls_len(c: Seq<i64>, now: i64)
    ensures
        recent_calls(c, now).len() <= c.len(),
    decreases c.len(),
{
    if c.len() > 0 {
        lemma_recent_calls_len(c.drop_last(), now);
    }
}

/// The capacity left to a key with calls `c` under `limit` at `now`:
/// `limit` less the recent calls, and 0 once they reach it.
pub open spec fn capacity_left(c: Seq<i64>, limit: u32, now: i64) -> int {
    if recent_calls(c, now).len() >= limit {
        0
    } else {
        limit - recent_calls(c, now).len()
    }
}

proof fn lemma_window_position_is(s: Seq<CallWindow>, k: Seq<char>, i: int)
    requires
        0 <= i < s.len(),
        s[i].key@ == k,
        forall|j: int| 0 <= j < i ==> s[j].key@ != k,
    ensures
        window_position(s, k) == Some(i),
{
    let c = choose|c: int| 0 <= c < s.len() && #[trigger] s[c].key@ == k
        && forall|j: int| 0 <= j < c ==> s[j].key@ != k;
    assert(0 <= i < s.len() && s[i].key@ == k && forall|j: int| 0 <= j < i ==> s[j].key@ != k);
    assert(c == i);
}

/// Sliding-window rate limiter: at most `limit` calls per key in any 60
/// seconds.
pub struct RateLimiter {
    windows: Vec<CallWindow>,
    limit: u32,
}

impl RateLimiter {
    /// The recorded calls, by key.
    pub closed spec fn windows(&self) -> Seq<CallWindow> {
        self.windows@
    }

    /// The per-minute call limit.
    pub closed spec fn limit(&self) -> u32 {
        self.limit
    }

    /// A rate limiter with the given per-minute call limit.
    pub fn new(limit: u32) -> (r: Self)
        ensures
            r.limit() == limit,
            forall|k: Seq<char>| #[trigger] calls_under(r.windows(), k) == Seq::<i64>::empty(),
    {
        RateLimiter { windows: Vec::new(), limit }
    }

    fn find(&self, key: &str) -> (r: Option<usize>)
        ensures
            match r {
                Some(i) => i < self.windows@.len() && window_position(self.windows@, key@) == Some(i as int),
                None => window_position(self.windows@, key@) is None
                    && forall|j: int| 0 <= j < self.windows@.len() ==> #[trigger] self.windows@[j].key@ != key@,
            },
    {
        let mut i: usize = 0;
        while i < self.windows.len()
            invariant
                i <= self.windows@.len(),
                forall|j: int| 0 <= j < i ==> #[trigger] self.windows@[j].key@ != key@,
            decreases self.windows@.len() - i,
        {
            if str_equal(self.windows[i].key.as_str(), key) {
                proof {
                    lemma_window_position_is(self.windows@, key@, i as int);
                }
                return Some(i);
            }
            i = i + 1;
        }
        None
    }

    /// Records a call under `key` at `now`, after forgetting the calls of
    /// `key` older than 60 seconds. The call is kept in either case; the
    /// answer is `Ok` with the capacity left when the window then holds at
    /// most `limit` calls, `RateLimitExceeded(limit)` otherwise.
    pub fn record_call_at(&mut self, key: &str, now: i64) -> (r: Result<u32, AuthError>)
        ensures
            final(self).limit() == old(self).limit(),
            ({
                let kept = recent_calls(calls_under(old(self).windows(), key@), now);
                &&& calls_under(final(self).windows(), key@) == kept.push(now)
                &&& if kept.len() + 1 > old(self).limit() {
                    r matches Err(AuthError::RateLimitExceeded(l)) && l == old(self).limit()
                } else {
                    r == Ok::<u32, AuthError>((old(self).limit() - (kept.len() + 1)) as u32)
                }
            }),
            forall|k: Seq<char>| k != key@ ==> #[trigger] calls_under(final(self).windows(), k)
                == calls_under(old(self).windows(), k),
    {
        let ghost before = self.windows@;
        let (i, calls) = match self.find(key) {
            Some(i) => {
                let w = self.windows.remove(i);
                (i, w.calls)
            },
            None => (self.windows.len(), Vec::new()),
        };
        let ghost old_calls = calls@;
        assert(old_calls == calls_under(before, key@));
        let mut kept: Vec<i64> = Vec::new();
        let mut j: usize = 0;
        assert(old_calls.take(0) =~= Seq::<i64>::empty());
        while j < calls.len()
            invariant
                old_calls == calls@,
                j <= calls@.len(),
                kept@ == recent_calls(old_calls.take(j as int), now),
                kept@.len() <= j,
            decreases calls@.len() - j,
        {
            proof {
                assert(old_calls.take(j + 1).drop_last() =~= old_calls.take(j as int));
            }
            let t = calls[j];
            if t as i128 > now as i128 - 60000 {
                kept.push(t);
            }
            j = j + 1;
        }
        assert(old_calls.take(old_calls.len() as int) =~= old_calls);
        kept.push(now);
        let count = kept.len();
        self.windows.insert(i, CallWindow { key: owned(key), calls: kept });
        proof {
            let after = self.windows@;
            assert(after[i as int].key@ == key@);
            assert forall|x: int| 0 <= x < i implies after[x].key@ != key@ by {
                assert(after[x] == before[x]);
                if window_position(before, key@) is Some {
                    let p = window_position(before, key@)->0;
                    assert(p == i);
                }
            }
            lemma_window_position_is(after, key@, i as int);
            assert(forall|x: int| 0 <= x < after.len() && x != i ==> after[x] == before[x]);
            assert forall|k: Seq<char>| k != key@ implies #[trigger] calls_under(after, k) == calls_under(before, k) by {
                if window_position(before, k) is Some {
                    let p = window_position(before, k)->0;
                    assert(p != i);
                    assert(after[p] == before[p]);
                    assert forall|y: int| 0 <= y < p implies after[y].key@ != k by {
                        if y != i {
                            assert(after[y] == before[y]);
                        }
                    }
                    lemma_window_position_is(after, k, p);
                } else {
                    if window_position(after, k) is Some {
                        let p = window_position(after, k)->0;
                        assert(p != i);
                        assert(after[p] == before[p]);
                        assert forall|y: int| 0 <= y < p implies before[y].key@ != k by {
                            if y != i {
                                assert(after[y] == before[y]);
                            }
                        }
                        lemma_window_position_is(before, k, p);
                    }
                }
            }
        }
        if count > self.limit as usize {
            Err(AuthError::RateLimitExceeded(self.limit))
        } else {
            Ok(self.limit - count as u32)
        }
    }

    /// Records a call under `key` at the current time: what `record_call_at`
    /// does for some reading of the clock. A key with fewer calls on record
    /// than the limit is always let through.
    pub fn record_call(&mut self, key: &str) -> (r: Result<u32, AuthError>)
        ensures
            final(self).limit() == old(self).limit(),
            exists|now: i64| clock_millis(now) && #[trigger] call_recorded(calls_under(old(self).windows(), key@),
                calls_under(final(self).windows(), key@), old(self).limit(), now, r),
            calls_under(old(self).windows(), key@).len() < old(self).limit() ==> r is Ok,
            r matches Err(e) ==> e matches AuthError::RateLimitExceeded(l) && l == old(self).limit(),
            r matches Ok(n) ==> n < old(self).limit(),
            forall|k: Seq<char>| k != key@ ==> #[trigger] calls_under(final(self).windows(), k)
                == calls_under(old(self).windows(), k),
    {
        let now = now_millis();
        let ghost before = calls_under(self.windows@, key@);
        let r = self.record_call_at(key, now);
        proof {
            lemma_recent_calls_len(before, now);
            assert(call_recorded(before, calls_under(self.windows@, key@), self.limit, now, r));
        }
        r
    }

    /// The capacity left under `key` at `now`, recording nothing.
    pub fn remaining_at(&self, key: &str, now: i64) -> (r: u32)
        ensures
            r == capacity_left(calls_under(self.windows(), key@), self.limit(), now),
    {
        let count: usize = match self.find(key) {
            Some(i) => {
                let calls = &self.windows[i].calls;
                let ghost c = calls@;
                let mut n: usize = 0;
                let mut j: usize = 0;
                while j < calls.len()
                    invariant
                        c == calls@,
                        j <= c.len(),
                        n == recent_calls(c.take(j as int), now).len(),
                        n <= j,
                    decreases c.len() - j,
                {
                    proof {
                        assert(c.take(j + 1).drop_last() =~= c.take(j as int));
                    }
                    if calls[j] as i128 > now as i128 - 60000 {
                        n = n + 1;
                    }
                    j = j + 1;
                }
                assert(c.take(c.len() as int) =~= c);
                n
            },
            None => 0,
        };
        if count >= self.limit as usize {
            0
        } else {
            self.limit - count as u32
        }
    }

    /// The capacity left under `key` at the current time: what
    /// `remaining_at` answers for some reading of the clock.
    pub fn remaining(&self, key: &str) -> (r: u32)
        ensures
            exists|now: i64| clock_millis(now)
                && r == #[trigger] capacity_left(calls_under(self.windows(), key@), self.limit(), now),
            r <= self.limit(),
    {
        let now = now_millis();
        self.remaining_at(key, now)
    }
}

} // verus!
