//! What the node agent's command handlers compute from what they read:
//! the container a restart may name, the OpenClaw configuration with its
//! secrets redacted, the containers `docker ps` lists, and the reply to a
//! Tailscale status check. Running the processes and reading the files is
//! left to the caller; JSON is handled as text and parsed by `serde_json`.

use vstd::prelude::*;
use vstd::string::*;
use vstd::utf8::{decode_utf8, encode_utf8_decode_utf8, valid_utf8};
use crate::audit_chain::{json_quoted, json_string};
use crate::proto::{all_ascii, ascii_letter_or_digit, is_alphanumeric, unicode_alphanumeric};
use crate::secrets_cmd::string_from_utf8;
use crate::text::{owned, push_char, push_str, str_equal};

verus! {

// ─── Parsing through serde_json ─────────────────────────────────────────────

/// The compact JSON text `serde_json` gives back for `text` when it parses
/// as a JSON value; `None` when it does not.
pub uninterp spec fn json_compact_of(text: Seq<char>) -> Option<Seq<char>>;

/// The members of the JSON object `text` as `serde_json` reads it (keys in
/// its map's order, each value as compact JSON text); `None` when `text` is
/// not a JSON object.
pub uninterp spec fn json_object_members(text: Seq<char>) -> Option<Seq<(Seq<char>, Seq<char>)>>;

/// A line without the carriage return that ended it, if any.
pub open spec fn without_cr(l: Seq<char>) -> Seq<char> {
    if l.len() > 0 && l.last() == '\r' { l.drop_last() } else { l }
}

/// `i` is the position of the first line feed of `s`.
pub open spec fn first_line_feed(s: Seq<char>, i: int) -> bool {
    0 <= i < s.len() && s[i] == '\n' && forall|j: int| 0 <= j < i ==> s[j] != '\n'
}

/// The lines of a text as `str::lines` splits it: at each line feed, a
/// carriage return before it dropped too; a last line without a line feed
/// is kept as it is, and there is no empty line after a final line feed.
pub open spec fn text_lines(s: Seq<char>) -> Seq<Seq<char>>
    decreases s.len(),
{
    if s.len() == 0 {
        Seq::empty()
    } else if exists|i: int| #[trigger] first_line_feed(s, i) {
        let i = choose|i: int| #[trigger] first_line_feed(s, i);
        seq![without_cr(s.take(i))] + text_lines(s.skip(i + 1))
    } else {
        seq![s]
    }
}

/// `serde_json::from_str::<Value>`, written back with `to_string`: the
/// compact JSON of `text`, named `json_compact_of`.
#[verifier::external_body]
fn compact_json(text: &str) -> (r: Option<String>)
    ensures
        match r {
            Some(c) => json_compact_of(text@) == Some(c@),
            None => json_compact_of(text@) is None,
        },
{
    serde_json::from_str::<serde_json::Value>(text).ok().map(|v| v.to_string())
}

/// A pair of texts taken by their views.
pub open spec fn pair_view(p: (String, String)) -> (Seq<char>, Seq<char>) {
    (p.0@, p.1@)
}

/// `serde_json::from_str::<Map<String, Value>>`, each value written back
/// with `to_string`: the members of the object, named `json_object_members`.
#[verifier::external_body]
fn object_members(text: &str) -> (r: Option<Vec<(String, String)>>)
    ensures
        match r {
            Some(v) => json_object_members(text@) == Some(v@.map_values(|p: (String, String)| pair_view(p))),
            None => json_object_members(text@) is None,
        },
{
    serde_json::from_str::<serde_json::Map<String, serde_json::Value>>(text)
        .ok()
        .map(|m| m.into_iter().map(|(k, v)| (k, v.to_string())).collect())
}

/// `str::lines`: the lines of `text`, named `text_lines`; no line holds a
/// line feed.
#[verifier::external_body]
fn lines_of(text: &str) -> (r: Vec<String>)
    ensures
        r@.map_values(|l: String| l@) == text_lines(text@),
        forall|i: int| 0 <= i < r@.len() ==> !(#[trigger] r@[i]@).contains('\n'),
{
    text.lines().map(|l| l.to_string()).collect()
}

// ─── docker.restart ─────────────────────────────────────────────────────────

/// The refusal of a container name that is not plain.
pub open spec fn invalid_container_text() -> Seq<char> {
    "Invalid container name — alphanumeric, dash, underscore only"@
}

/// A container name is made of alphanumerics, `-` and `_`.
pub open spec fn plain_container_name(c: Seq<char>) -> bool {
    forall|i: int| 0 <= i < c.len() ==> unicode_alphanumeric(#[trigger] c[i]) || c[i] == '-' || c[i] == '_'
}

/// On ASCII names, the same rule: ASCII letters, digits, `-` and `_`.
pub open spec fn plain_ascii_container_name(c: Seq<char>) -> bool {
    forall|i: int| 0 <= i < c.len() ==> ascii_letter_or_digit(#[trigger] c[i]) || c[i] == '-' || c[i] == '_'
}

/// The container `docker.restart` restarts: the one named, `openclaw` when
/// none is; a name with any other character than alphanumerics, `-` and
/// `_` is refused.
pub fn restart_target(container: Option<&str>) -> (r: Result<String, String>)
    ensures
        ({
            let c = match container { Some(s) => s@, None => "openclaw"@ };
            &&& (r is Ok <==> plain_container_name(c))
            &&& (r matches Ok(t) ==> t@ == c)
            &&& (r matches Err(m) ==> m@ == invalid_container_text())
            &&& (all_ascii(c) ==> (r is Ok <==> plain_ascii_container_name(c)))
        }),
{
    let c: &str = match container {
        Some(s) => s,
        None => "openclaw",
    };
    let n = c.unicode_len();
    let mut i: usize = 0;
    while i < n
        invariant
            n == c@.len(),
            c@ == (match container { Some(s) => s@, None => "openclaw"@ }),
            i <= n,
            forall|j: int| 0 <= j < i ==> unicode_alphanumeric(#[trigger] c@[j]) || c@[j] == '-' || c@[j] == '_',
            forall|j: int| 0 <= j < i && c@[j] < '\u{80}' ==>
                ascii_letter_or_digit(#[trigger] c@[j]) || c@[j] == '-' || c@[j] == '_',
        decreases n - i,
    {
        let ch = c.get_char(i);
        if !(is_alphanumeric(ch) || ch == '-' || ch == '_') {
            proof {
                assert(!(unicode_alphanumeric(c@[i as int]) || c@[i as int] == '-' || c@[i as int] == '_'));
                assert(!plain_container_name(c@));
                if all_ascii(c@) {
                    assert(c@[i as int] < '\u{80}');
                    assert(!(ascii_letter_or_digit(c@[i as int]) || c@[i as int] == '-' || c@[i as int] == '_'));
                    assert(!plain_ascii_container_name(c@));
                }
            }
            let m = owned("Invalid container name — alphanumeric, dash, underscore only");
            assert(m@ == invalid_container_text());
            return Err(m);
        }
        i = i + 1;
    }
    Ok(owned(c))
}

// ─── config.get ─────────────────────────────────────────────────────────────

/// The keys whose values `config.get` never shows.
pub open spec fn secret_config_key(k: Seq<char>) -> bool {
    k == "api_key"@ || k == "secret"@ || k == "token"@ || k == "password"@ || k == "webhook_secret"@
}

/// The JSON text standing in for a redacted value.
pub open spec fn redacted_value() -> Seq<char> {
    "\"[REDACTED]\""@
}

/// A member with its value redacted when its key is a secret one.
pub open spec fn redact_member(m: (Seq<char>, Seq<char>)) -> (Seq<char>, Seq<char>) {
    if secret_config_key(m.0) { (m.0, redacted_value()) } else { m }
}

/// The members of an object text, joined with commas.
pub open spec fn members_text(ms: Seq<(Seq<char>, Seq<char>)>) -> Seq<char>
    decreases ms.len(),
{
    if ms.len() == 0 {
        Seq::empty()
    } else if ms.len() == 1 {
        json_quoted(ms[0].0) + ":"@ + ms[0].1
    } else {
        members_text(ms.drop_last()) + ","@ + json_quoted(ms.last().0) + ":"@ + ms.last().1
    }
}

/// The compact JSON object with these members, in order.
pub open spec fn object_text(ms: Seq<(Seq<char>, Seq<char>)>) -> Seq<char> {
    "{"@ + members_text(ms) + "}"@
}

/// The configuration `config.get` shows for the file text `text`: an
/// object with every secret key's value replaced by `"[REDACTED]"` and the
/// other members kept; another JSON value as it is; `{}` when the text is
/// not JSON.
pub open spec fn redacted_config(text: Seq<char>) -> Seq<char> {
    match json_object_members(text) {
        Some(ms) => object_text(ms.map_values(|m: (Seq<char>, Seq<char>)| redact_member(m))),
        None => match json_compact_of(text) {
            Some(c) => c,
            None => "{}"@,
        },
    }
}

fn is_secret_config_key(k: &str) -> (r: bool)
    ensures
        r == secret_config_key(k@),
{
    str_equal(k, "api_key") || str_equal(k, "secret") || str_equal(k, "token") || str_equal(k, "password")
        || str_equal(k, "webhook_secret")
}

/// The compact JSON object with these members, in order.
fn write_object(ms: &Vec<(String, String)>) -> (r: String)
    ensures
        r@ == object_text(ms@.map_values(|p: (String, String)| pair_view(p))),
{
    let ghost all = ms@.map_values(|p: (String, String)| pair_view(p));
    proof {
        reveal_strlit(",");
        reveal_strlit(":");
        reveal_strlit("{");
        reveal_strlit("}");
    }
    let mut body = String::new();
    let mut i: usize = 0;
    while i < ms.len()
        invariant
            all == ms@.map_values(|p: (String, String)| pair_view(p)),
            i <= ms@.len(),
            body@ == members_text(all.take(i as int)),
        decreases ms@.len() - i,
    {
        proof {
            assert(all.take(i + 1).drop_last() =~= all.take(i as int));
            assert(all.take(i + 1).last() == pair_view(ms@[i as int]));
        }
        let ghost b0 = body@;
        let ghost m = all[i as int];
        assert(m == pair_view(ms@[i as int]));
        if i > 0 {
            push_char(&mut body, ',');
        }
        let k = json_string(ms[i].0.as_str());
        push_str(&mut body, k.as_str());
        push_char(&mut body, ':');
        push_str(&mut body, ms[i].1.as_str());
        proof {
            reveal_strlit(",");
            reveal_strlit(":");
            if i == 0 {
                assert(b0 =~= Seq::<char>::empty());
                assert(body@ =~= json_quoted(m.0) + ":"@ + m.1);
                assert(all.take(1)[0] == m);
            } else {
                assert(body@ =~= b0 + ","@ + json_quoted(m.0) + ":"@ + m.1);
                assert(all.take(i + 1).last() == m);
            }
        }
        i = i + 1;
    }
    assert(all.take(ms@.len() as int) =~= all);
    let mut r = owned("{");
    push_str(&mut r, body.as_str());
    push_char(&mut r, '}');
    r
}

/// The OpenClaw configuration text `text` as `config.get` shows it, with
/// the values of `api_key`, `secret`, `token`, `password` and
/// `webhook_secret` redacted.
pub fn redact_config(text: &str) -> (r: String)
    ensures
        r@ == redacted_config(text@),
{
    match object_members(text) {
        Some(ms) => {
            let ghost before = ms@.map_values(|p: (String, String)| pair_view(p));
            let mut out: Vec<(String, String)> = Vec::new();
            let mut i: usize = 0;
            while i < ms.len()
                invariant
                    before == ms@.map_values(|p: (String, String)| pair_view(p)),
                    i <= ms@.len(),
                    out@.len() == i,
                    forall|j: int| 0 <= j < i ==> #[trigger] pair_view(out@[j]) == redact_member(before[j]),
                decreases ms@.len() - i,
            {
                let key = owned(ms[i].0.as_str());
                if is_secret_config_key(ms[i].0.as_str()) {
                    out.push((key, owned("\"[REDACTED]\"")));
                } else {
                    out.push((key, owned(ms[i].1.as_str())));
                }
                i = i + 1;
            }
            let r = write_object(&out);
            proof {
                let red = before.map_values(|m: (Seq<char>, Seq<char>)| redact_member(m));
                assert(out@.map_values(|p: (String, String)| pair_view(p)) =~= red);
            }
            r
        },
        None => match compact_json(text) {
            Some(c) => c,
            None => owned("{}"),
        },
    }
}

// ─── docker.ps ──────────────────────────────────────────────────────────────

/// The lines of `ls` that parse as JSON, each as compact JSON, in order.
pub open spec fn json_lines(ls: Seq<Seq<char>>) -> Seq<Seq<char>>
    decreases ls.len(),
{
    if ls.len() == 0 {
        Seq::empty()
    } else {
        match json_compact_of(ls.last()) {
            Some(c) => json_lines(ls.drop_last()).push(c),
            None => json_lines(ls.drop_last()),
        }
    }
}

/// The containers `docker ps --format json` lists, one JSON object per
/// line of its output: the lines that parse as JSON, as compact JSON;
/// other lines are skipped.
pub fn parse_ps_lines(stdout: &str) -> (r: Vec<String>)
    ensures
        r@.map_values(|s: String| s@) == json_lines(text_lines(stdout@)),
{
    let lines = lines_of(stdout);
    let ghost ls = lines@.map_values(|l: String| l@);
    let mut out: Vec<String> = Vec::new();
    let mut i: usize = 0;
    while i < lines.len()
        invariant
            ls == lines@.map_values(|l: String| l@),
            i <= lines@.len(),
            out@.map_values(|s: String| s@) == json_lines(ls.take(i as int)),
        decreases lines@.len() - i,
    {
        proof {
            assert(ls.take(i + 1).drop_last() =~= ls.take(i as int));
            assert(ls.take(i + 1).last() == lines@[i as int]@);
        }
        match compact_json(lines[i].as_str()) {
            Some(c) => {
                let ghost before = out@;
                out.push(c);
                assert(out@.map_values(|s: String| s@) =~= before.map_values(|s: String| s@).push(c@));
            },
            None => {},
        }
        i = i + 1;
    }
    assert(ls.take(lines@.len() as int) =~= ls);
    out
}

// ─── tailscale.status ───────────────────────────────────────────────────────

/// The reply to `tailscale status --json`: `{"connected":false}` when the
/// command failed; otherwise its output as compact JSON, or
/// `{"connected":true}` when the output is not JSON.
pub open spec fn tailscale_reply(exit_ok: bool, stdout: Seq<u8>) -> Seq<char> {
    if !exit_ok {
        "{\"connected\":false}"@
    } else if valid_utf8(stdout) {
        match json_compact_of(decode_utf8(stdout)) {
            Some(c) => c,
            None => "{\"connected\":true}"@,
        }
    } else {
        "{\"connected\":true}"@
    }
}

/// What `tailscale.status` answers for a run of the command that exited
/// successfully or not with output `stdout`.
pub fn tailscale_status_reply(exit_ok: bool, stdout: Vec<u8>) -> (r: String)
    ensures
        r@ == tailscale_reply(exit_ok, stdout@),
{
    if !exit_ok {
        return owned("{\"connected\":false}");
    }
    match string_from_utf8(stdout) {
        Some(s) => {
            proof { encode_utf8_decode_utf8(s@); }
            match compact_json(s.as_str()) {
                Some(c) => c,
                None => owned("{\"connected\":true}"),
            }
        },
        None => owned("{\"connected\":true}"),
    }
}

} // verus!
