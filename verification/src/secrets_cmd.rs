//! Encoding of secret values at rest on the node: standard base64 (RFC 4648
//! alphabet, `=` padding) of the value's UTF-8 bytes, and its inverse.
//! Decoding skips every byte outside the alphabet, so padding and stray
//! characters are ignored; bytes that are not UTF-8 decode to "".
//! The `secret.*` node commands run against the secret store with it.

use vstd::prelude::*;
use vstd::string::*;
use vstd::utf8::*;
use crate::text::{owned, push_char, push_str, str_equal};
use crate::secrets::{
    SecretEntry, SecretSlot, SecretStore, key_index, lemma_get_after_create, secret_under,
    unique_keys,
};
use crate::sources::now_millis;

verus! {

// ─── Alphabet ────────────────────────────────────────────────────────────────

/// The base64 digit for `k` in `0..64`.
pub open spec fn b64_digit(k: int) -> char {
    if k < 26 {
        (65 + k) as char
    } else if k < 52 {
        (97 + (k - 26)) as char
    } else if k < 62 {
        (48 + (k - 52)) as char
    } else if k == 62 {
        '+'
    } else {
        '/'
    }
}

/// Position of byte `b` in the base64 alphabet, if it is in it.
pub open spec fn b64_index(b: u8) -> Option<u8> {
    if 65 <= b <= 90 {
        Some((b - 65) as u8)
    } else if 97 <= b <= 122 {
        Some((b - 97 + 26) as u8)
    } else if 48 <= b <= 57 {
        Some((b - 48 + 52) as u8)
    } else if b == 43 {
        Some(62u8)
    } else if b == 47 {
        Some(63u8)
    } else {
        None
    }
}

fn digit_of(k: usize) -> (c: char)
    requires
        k < 64,
    ensures
        c == b64_digit(k as int),
{
    if k < 26 {
        ((65 + k) as u8) as char
    } else if k < 52 {
        ((97 + (k - 26)) as u8) as char
    } else if k < 62 {
        ((48 + (k - 52)) as u8) as char
    } else if k == 62 {
        '+'
    } else {
        '/'
    }
}

fn index_of(b: u8) -> (r: Option<u8>)
    ensures
        r == b64_index(b),
{
    if 65 <= b && b <= 90 {
        Some(b - 65)
    } else if 97 <= b && b <= 122 {
        Some(b - 97 + 26)
    } else if 48 <= b && b <= 57 {
        Some(b - 48 + 52)
    } else if b == 43 {
        Some(62)
    } else if b == 47 {
        Some(63)
    } else {
        None
    }
}

// ─── Encoding ────────────────────────────────────────────────────────────────

/// Base64 text of `b`, a group of three bytes at a time.
pub open spec fn b64_encode(b: Seq<u8>) -> Seq<char>
    decreases b.len(),
{
    if b.len() >= 3 {
        seq![
            b64_digit((b[0] as int) / 4),
            b64_digit(((b[0] as int) % 4) * 16 + (b[1] as int) / 16),
            b64_digit(((b[1] as int) % 16) * 4 + (b[2] as int) / 64),
            b64_digit((b[2] as int) % 64),
        ] + b64_encode(b.skip(3))
    } else if b.len() == 2 {
        seq![b64_digit((b[0] as int) / 4), b64_digit(((b[0] as int) % 4) * 16 + (b[1] as int) / 16), b64_digit(((b[1] as int) % 16) * 4), '=']
    } else if b.len() == 1 {
        seq![b64_digit((b[0] as int) / 4), b64_digit(((b[0] as int) % 4) * 16), '=', '=']
    } else {
        Seq::empty()
    }
}

proof fn lemma_split_bits(b0: u8, b1: u8, b2: u8)
    ensures
        (b0 as usize) >> 2usize == b0 / 4,
        (((b0 as usize) & 3usize) << 4usize) | ((b1 as usize) >> 4usize) == (b0 % 4) * 16 + b1 / 16,
        (((b1 as usize) & 15usize) << 2usize) | ((b2 as usize) >> 6usize) == (b1 % 16) * 4 + b2 / 64,
        ((b1 as usize) & 15usize) << 2usize == (b1 % 16) * 4,
        ((b0 as usize) & 3usize) << 4usize == (b0 % 4) * 16,
        (b2 as usize) & 63usize == b2 % 64,
{
    assert((b0 as usize) >> 2usize == b0 / 4) by (bit_vector);
    assert((((b0 as usize) & 3usize) << 4usize) | ((b1 as usize) >> 4usize) == (b0 % 4) * 16 + b1 / 16) by (bit_vector);
    assert((((b1 as usize) & 15usize) << 2usize) | ((b2 as usize) >> 6usize) == (b1 % 16) * 4 + b2 / 64) by (bit_vector);
    assert(((b1 as usize) & 15usize) << 2usize == (b1 % 16) * 4) by (bit_vector);
    assert(((b0 as usize) & 3usize) << 4usize == (b0 % 4) * 16) by (bit_vector);
    assert((b2 as usize) & 63usize == b2 % 64) by (bit_vector);
}

/// Base64 of the UTF-8 bytes of `value`.
pub fn encode_value(value: &str) -> (r: String)
    ensures
        r@ == b64_encode(value.spec_bytes()),
{
    let bytes = value.as_bytes();
    let ghost b = bytes@;
    let n = bytes.len();
    let mut out = String::new();
    let mut i: usize = 0;
    assert(b.skip(0) =~= b);
    while i < n && n - i > 2
        invariant
            b == bytes@,
            n == b.len(),
            i <= n,
            out@ + b64_encode(b.skip(i as int)) == b64_encode(b),
        decreases n - i,
    {
        let b0 = bytes[i];
        let b1 = bytes[i + 1];
        let b2 = bytes[i + 2];
        proof {
            lemma_split_bits(b0, b1, b2);
        }
        let ghost before = out@;
        push_char(&mut out, digit_of((b0 as usize) >> 2));
        push_char(&mut out, digit_of((((b0 as usize) & 3) << 4) | ((b1 as usize) >> 4)));
        push_char(&mut out, digit_of((((b1 as usize) & 15) << 2) | ((b2 as usize) >> 6)));
        push_char(&mut out, digit_of((b2 as usize) & 63));
        proof {
            let rest = b.skip(i as int);
            assert(rest[0] == b0 && rest[1] == b1 && rest[2] == b2);
            assert(rest.skip(3) =~= b.skip(i + 3));
            assert(out@ =~= before + seq![
                b64_digit(rest[0] as int / 4),
                b64_digit((rest[0] as int % 4) * 16 + rest[1] as int / 16),
                b64_digit((rest[1] as int % 16) * 4 + rest[2] as int / 64),
                b64_digit(rest[2] as int % 64),
            ]);
        }
        i = i + 3;
    }
    let ghost rest = b.skip(i as int);
    if i < n {
        let b0 = bytes[i];
        if i + 1 < n {
            let b1 = bytes[i + 1];
            proof {
                lemma_split_bits(b0, b1, 0);
            }
            push_char(&mut out, digit_of((b0 as usize) >> 2));
            push_char(&mut out, digit_of((((b0 as usize) & 3) << 4) | ((b1 as usize) >> 4)));
            push_char(&mut out, digit_of(((b1 as usize) & 15) << 2));
            push_char(&mut out, '=');
            assert(rest[0] == b0 && rest[1] == b1 && rest.len() == 2);
        } else {
            proof {
                lemma_split_bits(b0, 0, 0);
            }
            push_char(&mut out, digit_of((b0 as usize) >> 2));
            push_char(&mut out, digit_of(((b0 as usize) & 3) << 4));
            push_char(&mut out, '=');
            push_char(&mut out, '=');
            assert(rest[0] == b0 && rest.len() == 1);
        }
    } else {
        assert(rest.len() == 0);
    }
    proof {
        assert(out@ =~= b64_encode(b));
    }
    out
}

// ─── Decoding ────────────────────────────────────────────────────────────────

/// Alphabet positions of the bytes of `e` that are in the alphabet, in order.
pub open spec fn b64_sextets(e: Seq<u8>) -> Seq<u8>
    decreases e.len(),
{
    if e.len() == 0 {
        Seq::empty()
    } else {
        match b64_index(e.last()) {
            Some(k) => b64_sextets(e.drop_last()).push(k),
            None => b64_sextets(e.drop_last()),
        }
    }
}

/// Bytes of a run of sextets: four sextets give three bytes, a tail of
/// three gives two, a tail of two gives one, a single one gives none.
pub open spec fn b64_decode_bytes(n: Seq<u8>) -> Seq<u8>
    decreases n.len(),
{
    if n.len() >= 4 {
        seq![
            ((n[0] as int) * 4 + (n[1] as int) / 16) as u8,
            (((n[1] as int) % 16) * 16 + (n[2] as int) / 4) as u8,
            (((n[2] as int) % 4) * 64 + (n[3] as int)) as u8,
        ] + b64_decode_bytes(n.skip(4))
    } else if n.len() == 3 {
        seq![
            ((n[0] as int) * 4 + (n[1] as int) / 16) as u8,
            (((n[1] as int) % 16) * 16 + (n[2] as int) / 4) as u8,
        ]
    } else if n.len() == 2 {
        seq![((n[0] as int) * 4 + (n[1] as int) / 16) as u8]
    } else {
        Seq::empty()
    }
}

/// The text whose UTF-8 bytes are `bytes`, or "" when they are not UTF-8.
pub open spec fn utf8_text_or_empty(bytes: Seq<u8>) -> Seq<char> {
    if valid_utf8(bytes) { decode_utf8(bytes) } else { Seq::empty() }
}

/// What `decode_value` gives for a text whose UTF-8 bytes are `e`.
pub open spec fn b64_decode(e: Seq<u8>) -> Seq<char> {
    utf8_text_or_empty(b64_decode_bytes(b64_sextets(e)))
}

/// `String::from_utf8`: `Some` exactly when the bytes are valid UTF-8, and
/// then the string is the one whose UTF-8 bytes they are.
#[verifier::external_body]
pub(crate) fn string_from_utf8(v: Vec<u8>) -> (r: Option<String>)
    ensures
        r is Some <==> valid_utf8(v@),
        r matches Some(s) ==> encode_utf8(s@) == v@,
{
    String::from_utf8(v).ok()
}

proof fn lemma_join_bits(a: u8, b: u8, c: u8, d: u8)
    requires
        a < 64,
        b < 64,
        c < 64,
        d < 64,
    ensures
        (a << 2u8) | (b >> 4u8) == ((a as int) * 4 + (b as int) / 16) as u8,
        (b << 4u8) | (c >> 2u8) == (((b as int) % 16) * 16 + (c as int) / 4) as u8,
        (c << 6u8) | d == (((c as int) % 4) * 64 + (d as int)) as u8,
{
    assert((a << 2u8) | (b >> 4u8) == (a * 4 + b / 16) as u8) by (bit_vector)
        requires
            a < 64,
            b < 64,
    ;
    assert((b << 4u8) | (c >> 2u8) == ((b % 16) * 16 + c / 4) as u8) by (bit_vector)
        requires
            b < 64,
            c < 64,
    ;
    assert((c << 6u8) | d == ((c % 4) * 64 + d) as u8) by (bit_vector)
        requires
            c < 64,
            d < 64,
    ;
}

/// Text decoded from the base64 in `encoded`.
pub fn decode_value(encoded: &str) -> (r: String)
    ensures
        r@ == b64_decode(encoded.spec_bytes()),
{
    let bytes = encoded.as_bytes();
    let ghost e = bytes@;
    let len = bytes.len();
    let mut nibbles: Vec<u8> = Vec::new();
    let mut j: usize = 0;
    assert(e.take(0) =~= Seq::<u8>::empty());
    while j < len
        invariant
            e == bytes@,
            len == e.len(),
            j <= len,
            nibbles@ == b64_sextets(e.take(j as int)),
            forall|x: int| 0 <= x < nibbles.len() ==> nibbles@[x] < 64,
        decreases len - j,
    {
        let c = bytes[j];
        proof {
            assert(e.take(j + 1).drop_last() =~= e.take(j as int));
            assert(e.take(j + 1).last() == c);
        }
        match index_of(c) {
            Some(k) => nibbles.push(k),
            None => {},
        }
        j = j + 1;
    }
    assert(e.take(len as int) =~= e);
    let ghost n = nibbles@;
    let m = nibbles.len();
    let mut out: Vec<u8> = Vec::new();
    let mut i: usize = 0;
    assert(n.skip(0) =~= n);
    while i < m && m - i > 3
        invariant
            n == nibbles@,
            m == n.len(),
            i <= m,
            forall|x: int| 0 <= x < m ==> n[x] < 64,
            out@ + b64_decode_bytes(n.skip(i as int)) == b64_decode_bytes(n),
        decreases m - i,
    {
        let a = nibbles[i];
        let b = nibbles[i + 1];
        let c = nibbles[i + 2];
        let d = nibbles[i + 3];
        proof {
            lemma_join_bits(a, b, c, d);
            assert(n.skip(i as int).skip(4) =~= n.skip(i + 4));
        }
        let ghost before = out@;
        out.push((a << 2) | (b >> 4));
        out.push((b << 4) | (c >> 2));
        out.push((c << 6) | d);
        proof {
            let rest = n.skip(i as int);
            assert(rest[0] == a && rest[1] == b && rest[2] == c && rest[3] == d);
            assert(out@ =~= before + seq![
                ((rest[0] as int) * 4 + (rest[1] as int) / 16) as u8,
                (((rest[1] as int) % 16) * 16 + (rest[2] as int) / 4) as u8,
                (((rest[2] as int) % 4) * 64 + (rest[3] as int)) as u8,
            ]);
        }
        i = i + 4;
    }
    let ghost rest = n.skip(i as int);
    if i < m && m - i > 2 {
        let a = nibbles[i];
        let b = nibbles[i + 1];
        let c = nibbles[i + 2];
        proof {
            lemma_join_bits(a, b, c, 0);
        }
        out.push((a << 2) | (b >> 4));
        out.push((b << 4) | (c >> 2));
        assert(rest.len() == 3 && rest[0] == a && rest[1] == b && rest[2] == c);
    } else if i < m && m - i > 1 {
        let a = nibbles[i];
        let b = nibbles[i + 1];
        proof {
            lemma_join_bits(a, b, 0, 0);
        }
        out.push((a << 2) | (b >> 4));
        assert(rest.len() == 2 && rest[0] == a && rest[1] == b);
    } else {
        assert(rest.len() <= 1);
    }
    assert(out@ =~= b64_decode_bytes(n));
    let ghost v = out@;
    match string_from_utf8(out) {
        Some(s) => {
            proof {
                encode_utf8_decode_utf8(s@);
            }
            s
        },
        None => String::new(),
    }
}

// ─── Round trip ──────────────────────────────────────────────────────────────

/// Bytes of a text of ASCII characters, one per character.
pub open spec fn ascii_bytes(e: Seq<char>) -> Seq<u8> {
    Seq::new(e.len(), |i: int| e[i] as u8)
}

proof fn lemma_digit_inverse(k: int)
    requires
        0 <= k < 64,
    ensures
        b64_index(b64_digit(k) as u8) == Some(k as u8),
        '\0' <= b64_digit(k) <= '\u{7f}',
{
}

proof fn lemma_sextets_concat(x: Seq<u8>, y: Seq<u8>)
    ensures
        b64_sextets(x + y) == b64_sextets(x) + b64_sextets(y),
    decreases y.len(),
{
    if y.len() == 0 {
        assert(x + y =~= x);
        assert(b64_sextets(x) + b64_sextets(y) =~= b64_sextets(x));
    } else {
        assert((x + y).drop_last() =~= x + y.drop_last());
        assert((x + y).last() == y.last());
        lemma_sextets_concat(x, y.drop_last());
        match b64_index(y.last()) {
            Some(k) => {
                assert(b64_sextets(x) + b64_sextets(y.drop_last()).push(k)
                    =~= (b64_sextets(x) + b64_sextets(y.drop_last())).push(k));
            },
            None => {},
        }
    }
}

proof fn lemma_sextet_of_digit(k: int)
    requires
        0 <= k < 64,
    ensures
        b64_sextets(seq![b64_digit(k) as u8]) == seq![k as u8],
{
    lemma_digit_inverse(k);
    let one = seq![b64_digit(k) as u8];
    assert(one.drop_last() =~= Seq::<u8>::empty());
    assert(one.last() == b64_digit(k) as u8);
    assert(b64_sextets(Seq::<u8>::empty()) =~= Seq::<u8>::empty());
    assert(Seq::<u8>::empty().push(k as u8) =~= seq![k as u8]);
}

proof fn lemma_sextet_of_pad()
    ensures
        b64_sextets(seq!['=' as u8]) == Seq::<u8>::empty(),
{
    let one = seq!['=' as u8];
    assert(one.drop_last() =~= Seq::<u8>::empty());
    assert(one.last() == 61u8);
    assert(b64_index(61u8) is None);
    assert(b64_sextets(Seq::<u8>::empty()) =~= Seq::<u8>::empty());
}

/// The sextets read back from the encoding of `b`, group by group, decode
/// to `b`, and the encoding is ASCII.
proof fn lemma_bytes_round_trip(b: Seq<u8>)
    ensures
        is_ascii_chars(b64_encode(b)),
        b64_decode_bytes(b64_sextets(ascii_bytes(b64_encode(b)))) == b,
    decreases b.len(),
{
    let x0 = b[0] as int;
    let x1 = b[1] as int;
    let x2 = b[2] as int;
    if b.len() >= 3 {
        let rest = b.skip(3);
        lemma_bytes_round_trip(rest);
        let k0 = x0 / 4;
        let k1 = (x0 % 4) * 16 + x1 / 16;
        let k2 = (x1 % 16) * 4 + x2 / 64;
        let k3 = x2 % 64;
        let quad = seq![b64_digit(k0), b64_digit(k1), b64_digit(k2), b64_digit(k3)];
        let e = b64_encode(b);
        assert(e == quad + b64_encode(rest));
        lemma_digit_inverse(k0);
        lemma_digit_inverse(k1);
        lemma_digit_inverse(k2);
        lemma_digit_inverse(k3);
        assert(is_ascii_chars(e));
        let tail = ascii_bytes(b64_encode(rest));
        assert(ascii_bytes(e) =~= seq![b64_digit(k0) as u8] + seq![b64_digit(k1) as u8]
            + seq![b64_digit(k2) as u8] + seq![b64_digit(k3) as u8] + tail);
        lemma_sextet_of_digit(k0);
        lemma_sextet_of_digit(k1);
        lemma_sextet_of_digit(k2);
        lemma_sextet_of_digit(k3);
        lemma_sextets_concat(seq![b64_digit(k0) as u8], seq![b64_digit(k1) as u8]);
        lemma_sextets_concat(seq![b64_digit(k0) as u8] + seq![b64_digit(k1) as u8], seq![b64_digit(k2) as u8]);
        lemma_sextets_concat(seq![b64_digit(k0) as u8] + seq![b64_digit(k1) as u8] + seq![b64_digit(k2) as u8],
            seq![b64_digit(k3) as u8]);
        lemma_sextets_concat(seq![b64_digit(k0) as u8] + seq![b64_digit(k1) as u8] + seq![b64_digit(k2) as u8]
            + seq![b64_digit(k3) as u8], tail);
        let s4 = seq![k0 as u8, k1 as u8, k2 as u8, k3 as u8];
        let n = b64_sextets(ascii_bytes(e));
        assert(n =~= s4 + b64_sextets(tail));
        assert(n.skip(4) =~= b64_sextets(tail));
        assert(b64_decode_bytes(n) =~= seq![b[0], b[1], b[2]] + rest);
        assert(seq![b[0], b[1], b[2]] + rest =~= b);
    } else if b.len() == 2 {
        let k0 = x0 / 4;
        let k1 = (x0 % 4) * 16 + x1 / 16;
        let k2 = (x1 % 16) * 4;
        lemma_digit_inverse(k0);
        lemma_digit_inverse(k1);
        lemma_digit_inverse(k2);
        let e = b64_encode(b);
        assert(is_ascii_chars(e));
        assert(ascii_bytes(e) =~= seq![b64_digit(k0) as u8] + seq![b64_digit(k1) as u8]
            + seq![b64_digit(k2) as u8] + seq!['=' as u8]);
        lemma_sextet_of_digit(k0);
        lemma_sextet_of_digit(k1);
        lemma_sextet_of_digit(k2);
        lemma_sextet_of_pad();
        lemma_sextets_concat(seq![b64_digit(k0) as u8], seq![b64_digit(k1) as u8]);
        lemma_sextets_concat(seq![b64_digit(k0) as u8] + seq![b64_digit(k1) as u8], seq![b64_digit(k2) as u8]);
        lemma_sextets_concat(seq![b64_digit(k0) as u8] + seq![b64_digit(k1) as u8] + seq![b64_digit(k2) as u8],
            seq!['=' as u8]);
        let n = b64_sextets(ascii_bytes(e));
        assert(n =~= seq![k0 as u8, k1 as u8, k2 as u8]);
        assert(b64_decode_bytes(n) =~= b);
    } else if b.len() == 1 {
        let k0 = x0 / 4;
        let k1 = (x0 % 4) * 16;
        lemma_digit_inverse(k0);
        lemma_digit_inverse(k1);
        let e = b64_encode(b);
        assert(is_ascii_chars(e));
        assert(ascii_bytes(e) =~= seq![b64_digit(k0) as u8] + seq![b64_digit(k1) as u8]
            + seq!['=' as u8] + seq!['=' as u8]);
        lemma_sextet_of_digit(k0);
        lemma_sextet_of_digit(k1);
        lemma_sextet_of_pad();
        lemma_sextets_concat(seq![b64_digit(k0) as u8], seq![b64_digit(k1) as u8]);
        lemma_sextets_concat(seq![b64_digit(k0) as u8] + seq![b64_digit(k1) as u8], seq!['=' as u8]);
        lemma_sextets_concat(seq![b64_digit(k0) as u8] + seq![b64_digit(k1) as u8] + seq!['=' as u8],
            seq!['=' as u8]);
        let n = b64_sextets(ascii_bytes(e));
        assert(n =~= seq![k0 as u8, k1 as u8]);
        assert(b64_decode_bytes(n) =~= b);
    } else {
        assert(b64_encode(b) =~= Seq::<char>::empty());
        assert(ascii_bytes(b64_encode(b)) =~= Seq::<u8>::empty());
    }
}

/// Decoding gives back what was encoded: for every text `t`, the text
/// `decode_value` reads from the string that `encode_value` wrote for `t`
/// is `t`.
pub proof fn lemma_decode_inverts_encode(t: Seq<char>)
    ensures
        b64_decode(encode_utf8(b64_encode(encode_utf8(t)))) == t,
{
    let b = encode_utf8(t);
    lemma_bytes_round_trip(b);
    let e = b64_encode(b);
    is_ascii_chars_encode_utf8(e);
    assert(encode_utf8(e) =~= ascii_bytes(e));
    encode_utf8_valid_utf8(t);
    encode_utf8_decode_utf8(t);
}

// ─── The secret.* commands ───────────────────────────────────────────────────

/// One parameter of a command as the request carried it.
pub enum ParamValue {
    /// The parameter is not in the request.
    Absent,
    /// The parameter is a string.
    Text(String),
    /// The parameter is there but is not a string.
    Other,
}

/// The string read from `primary`, or from `fallback` when `primary` is
/// absent; `None` when the one consulted is not a string.
pub open spec fn resolved(primary: ParamValue, fallback: ParamValue) -> Option<Seq<char>> {
    let p = if primary is Absent { fallback } else { primary };
    match p {
        ParamValue::Text(s) => Some(s@),
        _ => None,
    }
}

/// The parameters the secret commands read.
pub struct SecretParams {
    pub name: ParamValue,
    pub key: ParamValue,
    pub value: ParamValue,
    pub new_value: ParamValue,
}

/// The successful answers of the secret commands.
pub enum SecretReply {
    /// `secret.create` stored the secret.
    Created { name: String },
    /// `secret.get` found the secret; `value` is the decoded text.
    Value { name: String, value: String },
    /// `secret.get` found no secret of that name.
    NotFound,
    /// `secret.delete` ran (whether or not the name was present).
    Deleted { name: String },
    /// `secret.list`: the names of the stored secrets, in store order.
    Names { names: Vec<String> },
    /// `secret.rotate` replaced the value; `key_version` is the new version.
    Rotated { name: String, key_version: u32 },
}

/// The stored form of a secret value.
pub open spec fn encoded_text(v: Seq<char>) -> Seq<char> {
    b64_encode(encode_utf8(v))
}

/// Whether `e` is the entry written for name `n`, value `v`, key version
/// `kv`, creation time `created` and rotation time `rotated`.
pub open spec fn written_entry(e: SecretEntry, n: Seq<char>, v: Seq<char>, kv: u32, created: i64, rotated: i64) -> bool {
    &&& e.name@ == n
    &&& e.encrypted_data@ == encoded_text(v)
    &&& e.nonce@ == Seq::<char>::empty()
    &&& e.key_version == kv
    &&& e.created_at == created
    &&& e.rotated_at == rotated
    &&& e.rotation_due is None
}

fn read_param<'a>(primary: &'a ParamValue, fallback: &'a ParamValue) -> (r: Option<&'a str>)
    ensures
        match r {
            Some(s) => resolved(*primary, *fallback) == Some(s@),
            None => resolved(*primary, *fallback) is None,
        },
{
    let p = match primary {
        ParamValue::Absent => fallback,
        _ => primary,
    };
    match p {
        ParamValue::Text(s) => Some(s.as_str()),
        _ => None,
    }
}

fn read_one<'a>(p: &'a ParamValue) -> (r: Option<&'a str>)
    ensures
        match r {
            Some(s) => resolved(*p, ParamValue::Absent) == Some(s@),
            None => resolved(*p, ParamValue::Absent) is None,
        },
{
    match p {
        ParamValue::Text(s) => Some(s.as_str()),
        _ => None,
    }
}

fn fresh_entry(name: &str, value: &str, key_version: u32, created_at: i64, rotated_at: i64) -> (e: SecretEntry)
    ensures
        written_entry(e, name@, value@, key_version, created_at, rotated_at),
{
    SecretEntry {
        name: owned(name),
        encrypted_data: encode_value(value),
        nonce: String::new(),
        key_version,
        created_at,
        rotated_at,
        rotation_due: None,
    }
}

fn prefixed(head: &str, tail: &str) -> (r: String)
    ensures
        r@ == head@ + tail@,
{
    let mut r = owned(head);
    push_str(&mut r, tail);
    r
}

/// What a secret command does: `before` and `after` are the store's slots
/// around the call, `r` its answer, `now` the time it ran at.
pub open spec fn secret_command_outcome(
    before: Seq<SecretSlot>,
    after: Seq<SecretSlot>,
    command: Seq<char>,
    params: SecretParams,
    now: i64,
    r: Result<SecretReply, String>,
) -> bool {
    &&& (command == "secret.create"@ ==> match (resolved(params.name, params.key), resolved(params.value, ParamValue::Absent)) {
        (None, _) => r matches Err(m) && m@ == "missing 'name'"@ && after == before,
        (Some(_), None) => r matches Err(m) && m@ == "missing 'value'"@ && after == before,
        (Some(n), Some(v)) => match key_index(before, n) {
            Some(_) => r matches Err(m) && m@ == "secret.create error: secret '"@ + n + "' already exists"@
                && after == before,
            None => r matches Ok(SecretReply::Created { name }) && name@ == n
                && after.drop_last() == before
                && after.len() == before.len() + 1
                && after.last().key@ == n
                && written_entry(after.last().entry, n, v, 1, now, now),
        }
    })
    &&& (command == "secret.get"@ ==> after == before && match resolved(params.name, params.key) {
        None => r matches Err(m) && m@ == "missing 'name'"@,
        Some(n) => match secret_under(before, n) {
            Some(e) => r matches Ok(SecretReply::Value { name, value }) && name@ == n
                && value@ == b64_decode(encode_utf8(e.encrypted_data@)),
            None => r matches Ok(SecretReply::NotFound),
        }
    })
    &&& (command == "secret.delete"@ ==> match resolved(params.name, params.key) {
        None => r matches Err(m) && m@ == "missing 'name'"@ && after == before,
        Some(n) => r matches Ok(SecretReply::Deleted { name }) && name@ == n
            && after == match key_index(before, n) {
                Some(k) => before.remove(k),
                None => before,
            }
    })
    &&& (command == "secret.list"@ ==> after == before
        && (r matches Ok(SecretReply::Names { names })
        && names@.map_values(|s: String| s@) == before.map_values(|x: SecretSlot| x.entry.name@)))
    &&& (command == "secret.rotate"@ ==> match (resolved(params.name, params.key), resolved(params.new_value, params.value)) {
        (None, _) => r matches Err(m) && m@ == "missing 'name'"@ && after == before,
        (Some(_), None) => r matches Err(m) && m@ == "missing 'new_value'"@ && after == before,
        (Some(n), Some(v)) => match key_index(before, n) {
            None => r matches Err(m) && m@ == "secret not found"@ && after == before,
            Some(k) => r matches Ok(SecretReply::Rotated { name, key_version })
                && name@ == n
                && key_version == before[k].entry.key_version + 1
                && after.len() == before.len()
                && (forall|j: int| 0 <= j < before.len() && j != k
                    ==> after[j] == before[j])
                && after[k].key == before[k].key
                && written_entry(after[k].entry, n, v, key_version,
                    before[k].entry.created_at, now),
        }
    })
    &&& (!(command == "secret.create"@ || command == "secret.get"@ || command == "secret.delete"@
        || command == "secret.list"@ || command == "secret.rotate"@)
        ==> (r matches Err(m) && m@ == "unknown secret command: "@ + command
            && after == before))
}

/// Runs the secret command `command` on `store` at time `now`.
/// `name` falls back to `key`, the new value of `secret.rotate` to `value`.
pub fn handle_secret_command_at(store: &mut SecretStore, command: &str, params: &SecretParams, now: i64)
    -> (r: Result<SecretReply, String>)
    requires
        command@ == "secret.rotate"@ ==> match resolved(params.name, params.key) {
            Some(n) => match secret_under(old(store).slots(), n) {
                Some(e) => e.key_version < u32::MAX,
                None => true,
            },
            None => true,
        },
    ensures
        secret_command_outcome(old(store).slots(), final(store).slots(), command@, *params, now, r),
        unique_keys(final(store).slots()),
{
    proof {
        use_type_invariant(&*store);
        reveal_strlit("secret.create");
        reveal_strlit("secret.get");
        reveal_strlit("secret.delete");
        reveal_strlit("secret.list");
        reveal_strlit("secret.rotate");
        assert("secret.create"@[7] == 'c');
        assert("secret.get"@[7] == 'g');
        assert("secret.delete"@[7] == 'd');
        assert("secret.list"@[7] == 'l');
        assert("secret.rotate"@[7] == 'r');
    }
    if str_equal(command, "secret.create") {
        let name = match read_param(&params.name, &params.key) {
            Some(n) => n,
            None => return Err(owned("missing 'name'")),
        };
        let value = match read_one(&params.value) {
            Some(v) => v,
            None => return Err(owned("missing 'value'")),
        };
        let entry = fresh_entry(name, value, 1, now, now);
        match store.create(entry) {
            Ok(()) => Ok(SecretReply::Created { name: owned(name) }),
            Err(e) => {
                let m = e.message();
                let r = prefixed("secret.create error: ", m.as_str());
                proof {
                    reveal_strlit("secret.create error: ");
                    reveal_strlit("secret '");
                    reveal_strlit("secret.create error: secret '");
                    assert(r@ =~= "secret.create error: secret '"@ + name@ + "' already exists"@);
                }
                Err(r)
            },
        }
    } else if str_equal(command, "secret.get") {
        let name = match read_param(&params.name, &params.key) {
            Some(n) => n,
            None => return Err(owned("missing 'name'")),
        };
        match store.get(name) {
            Some(entry) => Ok(SecretReply::Value {
                name: owned(name),
                value: decode_value(entry.encrypted_data.as_str()),
            }),
            None => Ok(SecretReply::NotFound),
        }
    } else if str_equal(command, "secret.delete") {
        let name = match read_param(&params.name, &params.key) {
            Some(n) => n,
            None => return Err(owned("missing 'name'")),
        };
        let _ = store.delete(name);
        Ok(SecretReply::Deleted { name: owned(name) })
    } else if str_equal(command, "secret.list") {
        let entries = store.list();
        let mut names: Vec<String> = Vec::new();
        let mut i: usize = 0;
        while i < entries.len()
            invariant
                i <= entries@.len(),
                entries@.len() == store.slots().len(),
                forall|k: int| 0 <= k < entries@.len() ==> *#[trigger] entries@[k] == store.slots()[k].entry,
                names@.map_values(|s: String| s@)
                    == store.slots().map_values(|x: SecretSlot| x.entry.name@).take(i as int),
            decreases entries@.len() - i,
        {
            let ghost before = names@.map_values(|s: String| s@);
            names.push(entries[i].name.clone());
            assert(names@.map_values(|s: String| s@) =~= before.push(store.slots()[i as int].entry.name@));
            assert(names@.map_values(|s: String| s@)
                =~= store.slots().map_values(|x: SecretSlot| x.entry.name@).take(i as int + 1));
            i = i + 1;
        }
        assert(store.slots().map_values(|x: SecretSlot| x.entry.name@).take(entries@.len() as int)
            =~= store.slots().map_values(|x: SecretSlot| x.entry.name@));
        Ok(SecretReply::Names { names })
    } else if str_equal(command, "secret.rotate") {
        let name = match read_param(&params.name, &params.key) {
            Some(n) => n,
            None => return Err(owned("missing 'name'")),
        };
        let new_value = match read_param(&params.new_value, &params.value) {
            Some(v) => v,
            None => return Err(owned("missing 'new_value'")),
        };
        let (key_version, created_at) = match store.get(name) {
            Some(e) => (e.key_version + 1, e.created_at),
            None => return Err(owned("secret not found")),
        };
        let updated = fresh_entry(name, new_value, key_version, created_at, now);
        match store.update(name, updated) {
            Ok(()) => Ok(SecretReply::Rotated { name: owned(name), key_version }),
            Err(e) => {
                let m = e.message();
                Err(prefixed("secret.rotate error: ", m.as_str()))
            },
        }
    } else {
        Err(prefixed("unknown secret command: ", command))
    }
}

/// Runs the secret command `command` on `store` at the current time.
pub fn handle_secret_command(store: &mut SecretStore, command: &str, params: &SecretParams)
    -> (r: Result<SecretReply, String>)
    requires
        command@ == "secret.rotate"@ ==> match resolved(params.name, params.key) {
            Some(n) => match secret_under(old(store).slots(), n) {
                Some(e) => e.key_version < u32::MAX,
                None => true,
            },
            None => true,
        },
    ensures
        exists|now: i64| #[trigger] secret_command_outcome(old(store).slots(), final(store).slots(), command@, *params, now, r),
        unique_keys(final(store).slots()),
{
    let now = now_millis();
    let r = handle_secret_command_at(store, command, params, now);
    assert(secret_command_outcome(old(store).slots(), store.slots(), command@, *params, now, r));
    r
}

/// A value stored by `secret.create` is what `secret.get` gives back under
/// the same name.
pub proof fn lemma_get_returns_created_value(
    before: Seq<SecretSlot>,
    mid: Seq<SecretSlot>,
    after: Seq<SecretSlot>,
    create: SecretParams,
    get: SecretParams,
    t1: i64,
    t2: i64,
    r1: Result<SecretReply, String>,
    r2: Result<SecretReply, String>,
)
    requires
        unique_keys(mid),
        secret_command_outcome(before, mid, "secret.create"@, create, t1, r1),
        r1 is Ok,
        secret_command_outcome(mid, after, "secret.get"@, get, t2, r2),
        resolved(get.name, get.key) == resolved(create.name, create.key),
    ensures
        r2 matches Ok(SecretReply::Value { name, value })
            && Some(name@) == resolved(create.name, create.key)
            && Some(value@) == resolved(create.value, ParamValue::Absent),
{
    let n = resolved(create.name, create.key)->0;
    let v = resolved(create.value, ParamValue::Absent)->0;
    let e = mid.last().entry;
    lemma_get_after_create(before, mid, e);
    lemma_decode_inverts_encode(v);
}

} // verus!
