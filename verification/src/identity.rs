//! Ed25519 device identity of a node: the keypair, the device id (SHA-256
//! hex of the public key), payload signing, and the device parameters of
//! the gateway handshake. Reading and writing the identity file is left to
//! the caller; `from_stored` checks what was read.

use vstd::prelude::*;
use vstd::string::*;
use vstd::utf8::encode_utf8;
use ed25519_dalek::Signer;
use base64::Engine;
use sha2::Digest;
use crate::text::{decimal, owned, push_decimal, push_str};

verus! {

// ─── Outside computations ────────────────────────────────────────────────────

/// Lower-case hex digit of `d` in `0..16`.
pub open spec fn hex_digit(d: int) -> char {
    if d < 10 { (48 + d) as char } else { (87 + d) as char }
}

/// Lower-case hex of `b`, two digits per byte.
pub open spec fn hex_lower(b: Seq<u8>) -> Seq<char>
    decreases b.len(),
{
    if b.len() == 0 {
        Seq::empty()
    } else {
        hex_lower(b.drop_last()) + seq![hex_digit(b.last() as int / 16), hex_digit(b.last() as int % 16)]
    }
}

proof fn lemma_hex_len(b: Seq<u8>)
    ensures
        hex_lower(b).len() == 2 * b.len(),
    decreases b.len(),
{
    if b.len() > 0 {
        lemma_hex_len(b.drop_last());
    }
}

/// `hex::encode`: the bytes as lower-case hex, two digits per byte.
#[verifier::external_body]
pub(crate) fn hex_encode(b: &[u8]) -> (r: String)
    ensures
        r@ == hex_lower(b@),
{
    hex::encode(b)
}

/// SHA-256 digest of a byte string.
pub uninterp spec fn sha256_digest(b: Seq<u8>) -> Seq<u8>;

/// `Sha256` over `b`: its 32-byte digest, named `sha256_digest`.
#[verifier::external_body]
pub(crate) fn sha256(b: &[u8]) -> (r: Vec<u8>)
    ensures
        r@ == sha256_digest(b@),
        r@.len() == 32,
{
    let mut hasher = sha2::Sha256::new();
    hasher.update(b);
    hasher.finalize().to_vec()
}

/// Ed25519 public key of a 32-byte secret key.
pub uninterp spec fn ed25519_public_key(secret: Seq<u8>) -> Seq<u8>;

/// Ed25519 signature of `msg` under a 32-byte secret key (deterministic,
/// RFC 8032).
pub uninterp spec fn ed25519_signature(secret: Seq<u8>, msg: Seq<u8>) -> Seq<u8>;

/// `SigningKey::from_bytes(secret).verifying_key().to_bytes()`: the
/// 32-byte public key, named `ed25519_public_key` of the secret.
#[verifier::external_body]
fn public_key_of(secret: &[u8; 32]) -> (r: Vec<u8>)
    ensures
        r@ == ed25519_public_key(secret@),
        r@.len() == 32,
{
    ed25519_dalek::SigningKey::from_bytes(secret).verifying_key().to_bytes().to_vec()
}

/// `SigningKey::from_bytes(secret).sign(msg).to_bytes()`: the 64-byte
/// signature, named `ed25519_signature` of the secret and the message.
#[verifier::external_body]
fn sign_bytes(secret: &[u8; 32], msg: &[u8]) -> (r: Vec<u8>)
    ensures
        r@ == ed25519_signature(secret@, msg@),
        r@.len() == 64,
{
    ed25519_dalek::SigningKey::from_bytes(secret).sign(msg).to_bytes().to_vec()
}

/// `SigningKey::generate(&mut OsRng).to_bytes()`: a fresh random secret
/// key. Nothing is stated of it: it is random.
#[verifier::external_body]
fn random_secret_key() -> [u8; 32] {
    ed25519_dalek::SigningKey::generate(&mut rand_core::OsRng).to_bytes()
}

/// Base64url text (RFC 4648 §5 alphabet, no padding) of a byte string.
pub uninterp spec fn base64url(b: Seq<u8>) -> Seq<char>;

/// What the base64url decoder (no padding allowed) gives for a text, or
/// `None` when it refuses it.
pub uninterp spec fn base64url_decoded(s: Seq<char>) -> Option<Seq<u8>>;

/// `URL_SAFE_NO_PAD.encode(b)`, named `base64url` of the bytes.
#[verifier::external_body]
fn b64url_encode(b: &[u8]) -> (r: String)
    ensures
        r@ == base64url(b@),
{
    base64::engine::general_purpose::URL_SAFE_NO_PAD.encode(b)
}

/// Bytes of an optional byte vector.
pub open spec fn opt_bytes(o: Option<Vec<u8>>) -> Option<Seq<u8>> {
    match o {
        Some(v) => Some(v@),
        None => None,
    }
}

/// `URL_SAFE_NO_PAD.decode(s)`, `None` for its error; named
/// `base64url_decoded` of the text.
#[verifier::external_body]
fn b64url_decode(s: &str) -> (r: Option<Vec<u8>>)
    ensures
        opt_bytes(r) == base64url_decoded(s@),
{
    base64::engine::general_purpose::URL_SAFE_NO_PAD.decode(s).ok()
}

/// Milliseconds since the Unix epoch (`SystemTime::now`), 0 before it.
/// Nothing is stated of it: it is the clock's reading.
#[verifier::external_body]
fn unix_millis() -> u64 {
    std::time::SystemTime::now()
        .duration_since(std::time::UNIX_EPOCH)
        .unwrap_or_default()
        .as_millis() as u64
}

// ─── Identity ────────────────────────────────────────────────────────────────

/// Device identity holding an Ed25519 keypair.
pub struct DeviceIdentity {
    /// SHA-256 hex digest of the public key.
    pub device_id: String,
    /// Raw 32-byte public key.
    pub public_key_raw: Vec<u8>,
    signing_key: [u8; 32],
}

/// Device parameters for the gateway's WebSocket connect handshake.
#[derive(Debug, Clone)]
pub struct DeviceParams {
    /// Device ID (SHA-256 of the public key).
    pub id: String,
    /// Base64url-encoded public key.
    pub public_key: String,
    /// Base64url-encoded signature.
    pub signature: String,
    /// Signing time, in milliseconds since the Unix epoch.
    pub signed_at: u64,
    /// Nonce of the v2 protocol.
    pub nonce: Option<String>,
}

/// Why a stored identity was refused.
#[derive(Debug, Clone, Copy, PartialEq, Eq)]
pub enum IdentityError {
    /// The file format version is not 1.
    UnsupportedVersion(u8),
    /// The secret key is not valid base64url.
    SecretKeyEncoding,
    /// The secret key is not 32 bytes long.
    SecretKeyLength,
    /// The stored device id is not the one of the key.
    DeviceIdMismatch,
}

/// The device id of a public key: hex of its SHA-256.
pub open spec fn device_id_of(public_key: Seq<u8>) -> Seq<char> {
    hex_lower(sha256_digest(public_key))
}

/// `a|b|c...`: the parts joined with `sep`.
pub open spec fn joined(parts: Seq<Seq<char>>, sep: Seq<char>) -> Seq<char>
    decreases parts.len(),
{
    if parts.len() == 0 {
        Seq::empty()
    } else if parts.len() == 1 {
        parts[0]
    } else {
        joined(parts.drop_last(), sep) + sep + parts.last()
    }
}

fn join_strings(parts: &[String], sep: &str) -> (r: String)
    ensures
        r@ == joined(parts@.map_values(|s: String| s@), sep@),
{
    let ghost v = parts@.map_values(|s: String| s@);
    let mut out = String::new();
    let mut i: usize = 0;
    while i < parts.len()
        invariant
            v == parts@.map_values(|s: String| s@),
            i <= parts@.len(),
            out@ == joined(v.take(i as int), sep@),
        decreases parts@.len() - i,
    {
        proof {
            assert(v.take(i + 1).drop_last() =~= v.take(i as int));
        }
        if i > 0 {
            push_str(&mut out, sep);
        } else {
            assert(v.take(1) =~= seq![v[0]]);
        }
        push_str(&mut out, parts[i].as_str());
        i = i + 1;
    }
    assert(v.take(v.len() as int) =~= v);
    out
}

/// The authentication payload: `v1|device|client|mode|role|scopes|time|token`,
/// or `v2|...|token|nonce` when there is a nonce; scopes joined with `,`.
pub open spec fn auth_payload(device_id: Seq<char>, client_id: Seq<char>, client_mode: Seq<char>,
    role: Seq<char>, scopes: Seq<Seq<char>>, signed_at_ms: u64, token: Option<Seq<char>>,
    nonce: Option<Seq<char>>) -> Seq<char>
{
    let base = seq![
        if nonce is Some { "v2"@ } else { "v1"@ },
        device_id,
        client_id,
        client_mode,
        role,
        joined(scopes, ","@),
        decimal(signed_at_ms as nat),
        match token { Some(t) => t, None => Seq::empty() },
    ];
    joined(match nonce { Some(n) => base.push(n), None => base }, "|"@)
}

pub open spec fn opt_str(o: Option<&str>) -> Option<Seq<char>> {
    match o {
        Some(s) => Some(s@),
        None => None,
    }
}

impl DeviceIdentity {
    /// The secret key.
    pub closed spec fn secret(&self) -> Seq<u8> {
        self.signing_key@
    }

    /// The public key.
    pub closed spec fn public_key(&self) -> Seq<u8> {
        self.public_key_raw@
    }

    /// The device id.
    pub closed spec fn id(&self) -> Seq<char> {
        self.device_id@
    }

    /// The identity of a 32-byte secret key: its public key and the hex
    /// SHA-256 of that as device id.
    pub fn from_secret_key(secret: [u8; 32]) -> (r: Self)
        ensures
            r.secret() == secret@,
            r.public_key() == ed25519_public_key(secret@),
            r.public_key().len() == 32,
            r.id() == device_id_of(r.public_key()),
            r.id().len() == 64,
    {
        let public_key_raw = public_key_of(&secret);
        let digest = sha256(public_key_raw.as_slice());
        let device_id = hex_encode(digest.as_slice());
        proof {
            lemma_hex_len(digest@);
        }
        DeviceIdentity { device_id, public_key_raw, signing_key: secret }
    }

    /// A new random device identity.
    pub fn generate() -> (r: Self)
        ensures
            r.public_key() == ed25519_public_key(r.secret()),
            r.id() == device_id_of(r.public_key()),
            r.id().len() == 64,
            r.public_key().len() == 32,
    {
        let secret = random_secret_key();
        Self::from_secret_key(secret)
    }

    /// The identity read back from a stored file's fields: version 1, the
    /// base64url secret key, which must be 32 bytes and give the stored
    /// device id.
    pub fn from_stored(version: u8, device_id: &str, secret_key: &str) -> (r: Result<Self, IdentityError>)
        ensures
            version != 1 ==> r == Err::<Self, IdentityError>(IdentityError::UnsupportedVersion(version)),
            version == 1 ==> match base64url_decoded(secret_key@) {
                None => r == Err::<Self, IdentityError>(IdentityError::SecretKeyEncoding),
                Some(b) => if b.len() != 32 {
                    r == Err::<Self, IdentityError>(IdentityError::SecretKeyLength)
                } else if device_id_of(ed25519_public_key(b)) != device_id@ {
                    r == Err::<Self, IdentityError>(IdentityError::DeviceIdMismatch)
                } else {
                    r matches Ok(id) && id.secret() == b && id.id() == device_id@
                        && id.public_key() == ed25519_public_key(b)
                },
            },
    {
        if version != 1 {
            return Err(IdentityError::UnsupportedVersion(version));
        }
        let bytes = match b64url_decode(secret_key) {
            Some(b) => b,
            None => return Err(IdentityError::SecretKeyEncoding),
        };
        if bytes.len() != 32 {
            return Err(IdentityError::SecretKeyLength);
        }
        let mut secret = [0u8; 32];
        let mut i: usize = 0;
        while i < 32
            invariant
                bytes@.len() == 32,
                i <= 32,
                forall|j: int| 0 <= j < i ==> secret@[j] == bytes@[j],
            decreases 32 - i,
        {
            secret.set(i, bytes[i]);
            i = i + 1;
        }
        assert(secret@ =~= bytes@);
        let identity = Self::from_secret_key(secret);
        let same = crate::text::str_equal(identity.device_id.as_str(), device_id);
        if !same {
            return Err(IdentityError::DeviceIdMismatch);
        }
        Ok(identity)
    }

    /// The public key as base64url.
    pub fn public_key_base64url(&self) -> (r: String)
        ensures
            r@ == base64url(self.public_key()),
    {
        b64url_encode(self.public_key_raw.as_slice())
    }

    /// The secret key as base64url, as the identity file stores it.
    pub fn secret_key_base64url(&self) -> (r: String)
        ensures
            r@ == base64url(self.secret()),
    {
        b64url_encode(self.signing_key.as_slice())
    }

    /// Signs the UTF-8 bytes of `payload`; the signature as base64url.
    pub fn sign(&self, payload: &str) -> (r: String)
        ensures
            r@ == base64url(ed25519_signature(self.secret(), payload.spec_bytes())),
    {
        let sig = sign_bytes(&self.signing_key, payload.as_bytes());
        b64url_encode(sig.as_slice())
    }

    /// The authentication payload string.
    pub fn build_auth_payload(&self, client_id: &str, client_mode: &str, role: &str, scopes: &[String],
        signed_at_ms: u64, token: Option<&str>, nonce: Option<&str>) -> (r: String)
        ensures
            r@ == auth_payload(self.id(), client_id@, client_mode@, role@,
                scopes@.map_values(|s: String| s@), signed_at_ms, opt_str(token), opt_str(nonce)),
    {
        let scopes_str = join_strings(scopes, ",");
        let mut out = match nonce {
            Some(_) => owned("v2"),
            None => owned("v1"),
        };
        push_str(&mut out, "|");
        push_str(&mut out, self.device_id.as_str());
        push_str(&mut out, "|");
        push_str(&mut out, client_id);
        push_str(&mut out, "|");
        push_str(&mut out, client_mode);
        push_str(&mut out, "|");
        push_str(&mut out, role);
        push_str(&mut out, "|");
        push_str(&mut out, scopes_str.as_str());
        push_str(&mut out, "|");
        push_decimal(&mut out, signed_at_ms);
        push_str(&mut out, "|");
        match token {
            Some(t) => push_str(&mut out, t),
            None => {},
        }
        match nonce {
            Some(n) => {
                push_str(&mut out, "|");
                push_str(&mut out, n);
            },
            None => {},
        }
        proof {
            let base = seq![
                if nonce is Some { "v2"@ } else { "v1"@ },
                self.device_id@,
                client_id@,
                client_mode@,
                role@,
                joined(scopes@.map_values(|s: String| s@), ","@),
                decimal(signed_at_ms as nat),
                match opt_str(token) { Some(t) => t, None => Seq::empty() },
            ];
            reveal_with_fuel(joined, 10);
            assert(base.take(1) =~= seq![base[0]]);
            assert(base.take(2).drop_last() =~= base.take(1));
            assert(base.take(3).drop_last() =~= base.take(2));
            assert(base.take(4).drop_last() =~= base.take(3));
            assert(base.take(5).drop_last() =~= base.take(4));
            assert(base.take(6).drop_last() =~= base.take(5));
            assert(base.take(7).drop_last() =~= base.take(6));
            assert(base.drop_last() =~= base.take(7));
            match nonce {
                Some(n) => {
                    assert(base.push(n@).drop_last() =~= base);
                },
                None => {},
            }
        }
        out
    }

    /// Device parameters signed at `signed_at` (milliseconds since the Unix
    /// epoch).
    pub fn device_params_at(&self, client_id: &str, client_mode: &str, role: &str, scopes: &[String],
        token: Option<&str>, nonce: Option<&str>, signed_at: u64) -> (r: DeviceParams)
        ensures
            r.id@ == self.id(),
            r.public_key@ == base64url(self.public_key()),
            r.signature@ == base64url(ed25519_signature(self.secret(),
                encode_utf8(auth_payload(self.id(), client_id@, client_mode@, role@,
                    scopes@.map_values(|s: String| s@), signed_at, opt_str(token), opt_str(nonce))))),
            r.signed_at == signed_at,
            opt_chars(r.nonce) == opt_str(nonce),
    {
        let payload = self.build_auth_payload(client_id, client_mode, role, scopes, signed_at, token, nonce);
        let signature = self.sign(payload.as_str());
        DeviceParams {
            id: self.device_id.clone(),
            public_key: self.public_key_base64url(),
            signature,
            signed_at,
            nonce: match nonce {
                Some(n) => Some(owned(n)),
                None => None,
            },
        }
    }

    /// Device parameters signed at the current time.
    pub fn device_params(&self, client_id: &str, client_mode: &str, role: &str, scopes: &[String],
        token: Option<&str>, nonce: Option<&str>) -> (r: DeviceParams)
        ensures
            r.id@ == self.id(),
            r.public_key@ == base64url(self.public_key()),
            r.signature@ == base64url(ed25519_signature(self.secret(),
                encode_utf8(auth_payload(self.id(), client_id@, client_mode@, role@,
                    scopes@.map_values(|s: String| s@), r.signed_at, opt_str(token), opt_str(nonce))))),
            opt_chars(r.nonce) == opt_str(nonce),
    {
        let now = unix_millis();
        self.device_params_at(client_id, client_mode, role, scopes, token, nonce, now)
    }
}

pub open spec fn opt_chars(o: Option<String>) -> Option<Seq<char>> {
    match o {
        Some(s) => Some(s@),
        None => None,
    }
}

} // verus!
