//! The node side of the gateway handshake, as decisions: after the
//! WebSocket opens, the gateway sends a challenge nonce, the node answers
//! with a signed connect request, the gateway says hello (already paired)
//! or the node asks to be paired, and then the node serves commands.
//!
//! The socket, the timers and the JSON parsing belong to the caller: it
//! reads a message, hands the fields the handshake looks at to `step`, and
//! performs the action it gets back.

use vstd::prelude::*;
use vstd::string::*;
use crate::node::{AuthParams, ClientInfo, ConnectParams, DeviceParams, InvokeError, NodePairRequestParams};
use crate::identity::{auth_payload, base64url, ed25519_signature, opt_str, DeviceIdentity};
use crate::text::{owned, push_str, str_equal};
use vstd::utf8::encode_utf8;

verus! {

/// Protocol version the node speaks (the gateway must match it).
pub const PROTOCOL_VERSION: u32 = 3;

/// A request frame to the gateway; `params` is JSON text.
pub struct RequestFrame {
    pub frame_type: String,
    pub id: String,
    pub method: String,
    pub params: Option<String>,
}

impl RequestFrame {
    /// A request frame: its type is always `req`.
    pub fn new(id: String, method: String, params: Option<String>) -> (f: RequestFrame)
        ensures
            f.frame_type@ == "req"@,
            f.id == id,
            f.method == method,
            f.params == params,
    {
        RequestFrame { frame_type: owned("req"), id, method, params }
    }
}

/// The `error` member of a frame: its `message`, when that is a string.
pub struct ErrorField {
    pub message: Option<String>,
}

/// The members of a text frame the handshake looks at.
pub struct FrameFields {
    /// `event`: absent, a string, or another value.
    pub event: Option<Option<String>>,
    /// `payload.nonce`, when a string.
    pub nonce: Option<String>,
    /// `error`, when present.
    pub error: Option<ErrorField>,
    /// `ok`, when a boolean.
    pub ok: Option<bool>,
    /// `payload.type`, when a string.
    pub payload_type: Option<String>,
    /// Whether the frame has an `id`.
    pub has_id: bool,
    /// `result`, when present: its `token`, when a string.
    pub result: Option<Option<String>>,
}

/// What the socket gave the handshake.
pub enum GatewayMessage {
    /// A text frame that parsed as JSON.
    Text(FrameFields),
    /// A text frame that did not parse; the parser's message.
    Malformed(String),
    /// A ping with its data.
    Ping(Vec<u8>),
    /// A close frame, with its reason if it carried one.
    Close(Option<String>),
    /// Any other kind of message.
    Other,
    /// Reading failed; the error's message.
    ReadError(String),
    /// The stream ended.
    Ended,
    /// No message came in time.
    TimedOut,
    /// Sending the last request failed; the error's message.
    SendFailed(String),
    /// The pairing window closed.
    DeadlinePassed,
}

/// Where the handshake stands.
#[derive(Debug, Clone, Copy, PartialEq, Eq, Structural)]
pub enum HandshakePhase {
    /// Waiting for the challenge nonce.
    AwaitChallenge,
    /// Signed connect sent; waiting for hello.
    AwaitHello,
    /// Pair request sent; waiting for its answer.
    Pairing,
    /// The handshake is over (registered or failed).
    Done,
}

/// What the caller does next.
pub enum HandshakeAction {
    /// Send the connect request signed over this nonce.
    SendConnect { nonce: String },
    /// Send the pairing request.
    SendPairRequest,
    /// Answer a ping.
    SendPong { data: Vec<u8> },
    /// Read the next message.
    Continue,
    /// Registered: serve commands; keep the token when one came.
    Registered { node_token: Option<String> },
    /// Give up with this error.
    Fail { message: String },
}

/// The action as a value of the contracts.
pub enum ActionView {
    SendConnect(Seq<char>),
    SendPairRequest,
    SendPong(Seq<u8>),
    Continue,
    Registered(Option<Seq<char>>),
    Fail(Seq<char>),
}

/// The view of an optional string.
pub open spec fn opt_view(o: Option<String>) -> Option<Seq<char>> {
    match o {
        Some(s) => Some(s@),
        None => None,
    }
}

impl HandshakeAction {
    /// The action's value.
    pub open spec fn view_action(&self) -> ActionView {
        match self {
            HandshakeAction::SendConnect { nonce } => ActionView::SendConnect(nonce@),
            HandshakeAction::SendPairRequest => ActionView::SendPairRequest,
            HandshakeAction::SendPong { data } => ActionView::SendPong(data@),
            HandshakeAction::Continue => ActionView::Continue,
            HandshakeAction::Registered { node_token } => ActionView::Registered(opt_view(*node_token)),
            HandshakeAction::Fail { message } => ActionView::Fail(message@),
        }
    }
}

/// An error frame's message, or `default`.
pub open spec fn error_message(e: ErrorField, default: Seq<char>) -> Seq<char> {
    match e.message {
        Some(m) => m@,
        None => default,
    }
}

/// Whether the frame is a successful hello (`ok` and payload type `hello-ok`).
pub open spec fn is_hello_ok(f: FrameFields) -> bool {
    f.ok == Some(true) && opt_view(f.payload_type) == Some("hello-ok"@)
}

/// The answer to the first message: the challenge nonce lets the node send
/// its signed connect; a gateway error or close ends the handshake.
pub open spec fn on_challenge(m: GatewayMessage) -> (HandshakePhase, ActionView) {
    match m {
        GatewayMessage::Text(f) => match f.event {
            Some(Some(e)) => if e@ == "connect.challenge"@ && f.nonce is Some {
                (HandshakePhase::AwaitHello, ActionView::SendConnect(f.nonce->0@))
            } else {
                (HandshakePhase::Done, ActionView::Fail("no challenge nonce received"@))
            },
            _ => match f.error {
                Some(e) => (HandshakePhase::Done, ActionView::Fail(
                    "gateway error on connect: "@ + error_message(e, "unknown"@))),
                None => (HandshakePhase::Done, ActionView::Fail("no challenge nonce received"@)),
            },
        },
        GatewayMessage::Malformed(e) => (HandshakePhase::Done, ActionView::Fail(e@)),
        GatewayMessage::Close(reason) => (HandshakePhase::Done, ActionView::Fail(
            "gateway closed connection: "@ + match reason { Some(r) => r@, None => Seq::empty() })),
        GatewayMessage::ReadError(e) => (HandshakePhase::Done, ActionView::Fail(e@)),
        GatewayMessage::Ended => (HandshakePhase::Done, ActionView::Fail("connection closed waiting for challenge"@)),
        GatewayMessage::TimedOut => (HandshakePhase::Done, ActionView::Fail("challenge timeout"@)),
        GatewayMessage::SendFailed(e) => (HandshakePhase::Done, ActionView::Fail(e@)),
        _ => (HandshakePhase::Done, ActionView::Fail("no challenge nonce received"@)),
    }
}

/// The answer to the reply to the signed connect: hello means the node is
/// already paired; an error, or another challenge (the signature was
/// rejected), ends the handshake; anything else leads to pairing.
pub open spec fn on_hello(m: GatewayMessage) -> (HandshakePhase, ActionView) {
    match m {
        GatewayMessage::Text(f) => if is_hello_ok(f) {
            (HandshakePhase::Done, ActionView::Registered(None))
        } else {
            match f.error {
                Some(e) => (HandshakePhase::Done, ActionView::Fail("gateway error: "@ + error_message(e, "unknown error"@))),
                None => if f.event is Some {
                    (HandshakePhase::Done, ActionView::Fail("device signature rejected"@))
                } else {
                    (HandshakePhase::Pairing, ActionView::SendPairRequest)
                },
            }
        },
        GatewayMessage::Malformed(e) => (HandshakePhase::Done, ActionView::Fail(e@)),
        GatewayMessage::SendFailed(e) => (HandshakePhase::Done, ActionView::Fail("failed to send connect: "@ + e@)),
        GatewayMessage::ReadError(e) => (HandshakePhase::Done, ActionView::Fail("websocket error: "@ + e@)),
        GatewayMessage::Ended => (HandshakePhase::Done, ActionView::Fail("connection closed by gateway"@)),
        GatewayMessage::TimedOut => (HandshakePhase::Done, ActionView::Fail("hello timeout"@)),
        _ => (HandshakePhase::Pairing, ActionView::SendPairRequest),
    }
}

/// The answer to a message while pairing: a reply to the request (a
/// result, or an error such as "already registered") ends pairing, as does
/// a quiet spell or the end of the window; pings are answered.
pub open spec fn on_pairing(m: GatewayMessage) -> (HandshakePhase, ActionView) {
    match m {
        GatewayMessage::Text(f) => if f.has_id {
            match f.result {
                Some(token) => (HandshakePhase::Done, ActionView::Registered(opt_view(token))),
                None => if f.error is Some {
                    (HandshakePhase::Done, ActionView::Registered(None))
                } else {
                    (HandshakePhase::Pairing, ActionView::Continue)
                },
            }
        } else {
            (HandshakePhase::Pairing, ActionView::Continue)
        },
        GatewayMessage::Malformed(e) => (HandshakePhase::Done, ActionView::Fail(e@)),
        GatewayMessage::Ping(d) => (HandshakePhase::Pairing, ActionView::SendPong(d@)),
        GatewayMessage::Close(_) => (HandshakePhase::Done, ActionView::Fail("connection closed during pairing"@)),
        GatewayMessage::ReadError(e) => (HandshakePhase::Done, ActionView::Fail("websocket error: "@ + e@)),
        GatewayMessage::Ended => (HandshakePhase::Done, ActionView::Fail("connection closed"@)),
        GatewayMessage::TimedOut => (HandshakePhase::Done, ActionView::Registered(None)),
        GatewayMessage::SendFailed(e) => (HandshakePhase::Done, ActionView::Fail(e@)),
        GatewayMessage::DeadlinePassed => (HandshakePhase::Done, ActionView::Registered(None)),
        GatewayMessage::Other => (HandshakePhase::Pairing, ActionView::Continue),
    }
}

/// The handshake's transition from `p` on message `m`.
pub open spec fn handshake_next(p: HandshakePhase, m: GatewayMessage) -> (HandshakePhase, ActionView) {
    match p {
        HandshakePhase::AwaitChallenge => on_challenge(m),
        HandshakePhase::AwaitHello => on_hello(m),
        HandshakePhase::Pairing => on_pairing(m),
        HandshakePhase::Done => (HandshakePhase::Done, ActionView::Continue),
    }
}

fn fail(message: String) -> (a: HandshakeAction)
    ensures
        a.view_action() == ActionView::Fail(message@),
{
    HandshakeAction::Fail { message }
}

fn joined(a: &str, b: &str) -> (r: String)
    ensures
        r@ == a@ + b@,
{
    let mut r = owned(a);
    push_str(&mut r, b);
    r
}

fn message_or<'a>(e: &'a ErrorField, default: &'a str) -> (r: &'a str)
    ensures
        r@ == error_message(*e, default@),
{
    match &e.message {
        Some(m) => m.as_str(),
        None => default,
    }
}

fn copy_opt(o: &Option<String>) -> (r: Option<String>)
    ensures
        r == *o,
{
    match o {
        Some(s) => Some(s.clone()),
        None => None,
    }
}

fn copy_bytes(v: &Vec<u8>) -> (r: Vec<u8>)
    ensures
        r@ == v@,
{
    let mut out: Vec<u8> = Vec::new();
    let mut i: usize = 0;
    while i < v.len()
        invariant
            i <= v@.len(),
            out@ == v@.take(i as int),
        decreases v@.len() - i,
    {
        out.push(v[i]);
        assert(out@ =~= v@.take(i as int + 1));
        i = i + 1;
    }
    assert(v@.take(v@.len() as int) =~= v@);
    out
}

fn challenge_step(m: &GatewayMessage) -> (r: (HandshakePhase, HandshakeAction))
    ensures
        (r.0, r.1.view_action()) == on_challenge(*m),
{
    match m {
        GatewayMessage::Text(f) => match &f.event {
            Some(Some(e)) => {
                if str_equal(e.as_str(), "connect.challenge") {
                    match &f.nonce {
                        Some(n) => (HandshakePhase::AwaitHello, HandshakeAction::SendConnect { nonce: n.clone() }),
                        None => (HandshakePhase::Done, fail(owned("no challenge nonce received"))),
                    }
                } else {
                    (HandshakePhase::Done, fail(owned("no challenge nonce received")))
                }
            },
            _ => match &f.error {
                Some(e) => (HandshakePhase::Done, fail(joined("gateway error on connect: ", message_or(e, "unknown")))),
                None => (HandshakePhase::Done, fail(owned("no challenge nonce received"))),
            },
        },
        GatewayMessage::Malformed(e) => (HandshakePhase::Done, fail(e.clone())),
        GatewayMessage::Close(reason) => {
            let r = match reason {
                Some(r) => r.as_str(),
                None => "",
            };
            proof { reveal_strlit(""); }
            (HandshakePhase::Done, fail(joined("gateway closed connection: ", r)))
        },
        GatewayMessage::ReadError(e) => (HandshakePhase::Done, fail(e.clone())),
        GatewayMessage::Ended => (HandshakePhase::Done, fail(owned("connection closed waiting for challenge"))),
        GatewayMessage::TimedOut => (HandshakePhase::Done, fail(owned("challenge timeout"))),
        GatewayMessage::SendFailed(e) => (HandshakePhase::Done, fail(e.clone())),
        _ => (HandshakePhase::Done, fail(owned("no challenge nonce received"))),
    }
}

fn hello_step(m: &GatewayMessage) -> (r: (HandshakePhase, HandshakeAction))
    ensures
        (r.0, r.1.view_action()) == on_hello(*m),
{
    match m {
        GatewayMessage::Text(f) => {
            let hello = match (&f.ok, &f.payload_type) {
                (Some(true), Some(t)) => str_equal(t.as_str(), "hello-ok"),
                _ => false,
            };
            if hello {
                (HandshakePhase::Done, HandshakeAction::Registered { node_token: None })
            } else {
                match &f.error {
                    Some(e) => (HandshakePhase::Done, fail(joined("gateway error: ", message_or(e, "unknown error")))),
                    None => match &f.event {
                        Some(_) => (HandshakePhase::Done, fail(owned("device signature rejected"))),
                        None => (HandshakePhase::Pairing, HandshakeAction::SendPairRequest),
                    },
                }
            }
        },
        GatewayMessage::Malformed(e) => (HandshakePhase::Done, fail(e.clone())),
        GatewayMessage::SendFailed(e) => (HandshakePhase::Done, fail(joined("failed to send connect: ", e.as_str()))),
        GatewayMessage::ReadError(e) => (HandshakePhase::Done, fail(joined("websocket error: ", e.as_str()))),
        GatewayMessage::Ended => (HandshakePhase::Done, fail(owned("connection closed by gateway"))),
        GatewayMessage::TimedOut => (HandshakePhase::Done, fail(owned("hello timeout"))),
        _ => (HandshakePhase::Pairing, HandshakeAction::SendPairRequest),
    }
}

fn pairing_step(m: &GatewayMessage) -> (r: (HandshakePhase, HandshakeAction))
    ensures
        (r.0, r.1.view_action()) == on_pairing(*m),
{
    match m {
        GatewayMessage::Text(f) => {
            if f.has_id {
                match &f.result {
                    Some(token) => (HandshakePhase::Done, HandshakeAction::Registered { node_token: copy_opt(token) }),
                    None => match &f.error {
                        Some(_) => (HandshakePhase::Done, HandshakeAction::Registered { node_token: None }),
                        None => (HandshakePhase::Pairing, HandshakeAction::Continue),
                    },
                }
            } else {
                (HandshakePhase::Pairing, HandshakeAction::Continue)
            }
        },
        GatewayMessage::Malformed(e) => (HandshakePhase::Done, fail(e.clone())),
        GatewayMessage::Ping(d) => (HandshakePhase::Pairing, HandshakeAction::SendPong { data: copy_bytes(d) }),
        GatewayMessage::Close(_) => (HandshakePhase::Done, fail(owned("connection closed during pairing"))),
        GatewayMessage::ReadError(e) => (HandshakePhase::Done, fail(joined("websocket error: ", e.as_str()))),
        GatewayMessage::Ended => (HandshakePhase::Done, fail(owned("connection closed"))),
        GatewayMessage::TimedOut => (HandshakePhase::Done, HandshakeAction::Registered { node_token: None }),
        GatewayMessage::SendFailed(e) => (HandshakePhase::Done, fail(e.clone())),
        GatewayMessage::DeadlinePassed => (HandshakePhase::Done, HandshakeAction::Registered { node_token: None }),
        GatewayMessage::Other => (HandshakePhase::Pairing, HandshakeAction::Continue),
    }
}

/// One handshake step: the next phase and what to do, on message `m`.
pub fn step(phase: HandshakePhase, m: &GatewayMessage) -> (r: (HandshakePhase, HandshakeAction))
    ensures
        (r.0, r.1.view_action()) == handshake_next(phase, *m),
{
    match phase {
        HandshakePhase::AwaitChallenge => challenge_step(m),
        HandshakePhase::AwaitHello => hello_step(m),
        HandshakePhase::Pairing => pairing_step(m),
        HandshakePhase::Done => (HandshakePhase::Done, HandshakeAction::Continue),
    }
}

/// A node never registers before it has sent its signed connect: the
/// first message either yields the connect request or ends the handshake
/// with an error.
pub proof fn lemma_no_registration_without_challenge(m: GatewayMessage)
    ensures
        handshake_next(HandshakePhase::AwaitChallenge, m).1 is SendConnect
            || handshake_next(HandshakePhase::AwaitChallenge, m).1 is Fail,
        handshake_next(HandshakePhase::AwaitChallenge, m).1 is SendConnect
            <==> (m matches GatewayMessage::Text(f) && f.event matches Some(Some(e))
                && e@ == "connect.challenge"@ && f.nonce is Some),
{
}

/// A hello answered with a second challenge means the signature was
/// rejected: the handshake fails, it never pairs.
pub proof fn lemma_rejected_signature_fails(f: FrameFields)
    requires
        !is_hello_ok(f),
        f.error is None,
        f.event is Some,
    ensures
        handshake_next(HandshakePhase::AwaitHello, GatewayMessage::Text(f))
            == (HandshakePhase::Done, ActionView::Fail("device signature rejected"@)),
{
}

/// An already paired node skips pairing: hello registers it at once.
pub proof fn lemma_hello_skips_pairing(f: FrameFields)
    requires
        is_hello_ok(f),
    ensures
        handshake_next(HandshakePhase::AwaitHello, GatewayMessage::Text(f))
            == (HandshakePhase::Done, ActionView::Registered(None)),
{
}

/// A handshake that has ended stays ended and asks for nothing more.
pub proof fn lemma_done_is_final(m: GatewayMessage)
    ensures
        handshake_next(HandshakePhase::Done, m) == (HandshakePhase::Done, ActionView::Continue),
{
}

// ─── Requests the node sends ─────────────────────────────────────────────────

/// The connect request's parameters: protocol 3 both ways, client
/// `node-host` in mode `node`, role `node` with scope `node`, the token
/// when there is one, and the signed device.
pub fn build_connect_params(
    hostname: &str,
    version: &str,
    platform: &str,
    instance_id: &str,
    caps: Vec<String>,
    commands: Vec<String>,
    auth_token: Option<&str>,
    device: DeviceParams,
) -> (c: ConnectParams)
    ensures
        c.min_protocol == 3,
        c.max_protocol == 3,
        c.client.id@ == "node-host"@,
        c.client.display_name@ == hostname@,
        c.client.version@ == version@,
        c.client.platform@ == platform@,
        c.client.mode@ == "node"@,
        c.client.instance_id@ == instance_id@,
        c.caps@ == caps@,
        c.commands@ == commands@,
        match auth_token {
            Some(t) => c.auth matches Some(a) && a.token matches Some(s) && s@ == t@,
            None => c.auth is None,
        },
        c.device == Some(device),
        c.role matches Some(r) && r@ == "node"@,
        c.scopes matches Some(s) && s@.len() == 1 && s@[0]@ == "node"@,
{
    let auth = match auth_token {
        Some(t) => Some(AuthParams { token: Some(owned(t)) }),
        None => None,
    };
    let mut scopes: Vec<String> = Vec::new();
    scopes.push(owned("node"));
    ConnectParams {
        min_protocol: PROTOCOL_VERSION,
        max_protocol: PROTOCOL_VERSION,
        client: ClientInfo {
            id: owned("node-host"),
            display_name: owned(hostname),
            version: owned(version),
            platform: owned(platform),
            mode: owned("node"),
            instance_id: owned(instance_id),
        },
        caps,
        commands,
        auth,
        device: Some(device),
        role: Some(owned("node")),
        scopes: Some(scopes),
    }
}

/// The connect request answering the challenge `nonce`: the parameters of
/// `build_connect_params`, with the device signed by `identity` at
/// `signed_at` over the client `node-host` in mode `node`, role `node`,
/// scope `node`, the token and the nonce.
pub fn signed_connect_params(
    identity: &DeviceIdentity,
    hostname: &str,
    version: &str,
    platform: &str,
    instance_id: &str,
    caps: Vec<String>,
    commands: Vec<String>,
    auth_token: Option<&str>,
    nonce: &str,
    signed_at: u64,
) -> (c: ConnectParams)
    ensures
        c.min_protocol == 3,
        c.max_protocol == 3,
        c.client.id@ == "node-host"@,
        c.client.display_name@ == hostname@,
        c.client.version@ == version@,
        c.client.platform@ == platform@,
        c.client.mode@ == "node"@,
        c.client.instance_id@ == instance_id@,
        c.caps@ == caps@,
        c.commands@ == commands@,
        match auth_token {
            Some(t) => c.auth matches Some(a) && a.token matches Some(s) && s@ == t@,
            None => c.auth is None,
        },
        c.role matches Some(r) && r@ == "node"@,
        c.scopes matches Some(s) && s@.len() == 1 && s@[0]@ == "node"@,
        c.device matches Some(d) && {
            &&& d.id@ == identity.id()
            &&& d.public_key@ == base64url(identity.public_key())
            &&& d.signature@ == base64url(ed25519_signature(identity.secret(),
                encode_utf8(auth_payload(identity.id(), "node-host"@, "node"@, "node"@, seq!["node"@], signed_at,
                    opt_str(auth_token), Some(nonce@)))))
            &&& d.signed_at == signed_at
            &&& d.nonce matches Some(n) && n@ == nonce@
        },
{
    let mut scopes: Vec<String> = Vec::new();
    scopes.push(owned("node"));
    assert(scopes@.map_values(|s: String| s@) =~= seq!["node"@]);
    let signed = identity.device_params_at("node-host", "node", "node", scopes.as_slice(), auth_token, Some(nonce),
        signed_at);
    let device = DeviceParams {
        id: signed.id,
        public_key: signed.public_key,
        signature: signed.signature,
        signed_at: signed.signed_at,
        nonce: signed.nonce,
    };
    build_connect_params(hostname, version, platform, instance_id, caps, commands, auth_token, device)
}

/// The pairing request's parameters: the node's id, name, platform,
/// version, capabilities and commands, asked silently.
pub fn build_pair_request(
    node_id: &str,
    hostname: &str,
    platform: &str,
    version: &str,
    caps: Vec<String>,
    commands: Vec<String>,
) -> (p: NodePairRequestParams)
    ensures
        p.node_id@ == node_id@,
        p.display_name@ == hostname@,
        p.platform@ == platform@,
        p.version@ == version@,
        p.caps@ == caps@,
        p.commands@ == commands@,
        p.silent,
{
    NodePairRequestParams {
        node_id: owned(node_id),
        display_name: owned(hostname),
        platform: owned(platform),
        version: owned(version),
        caps,
        commands,
        silent: true,
    }
}

// ─── Results of invoked commands ─────────────────────────────────────────────

/// The result of an invoked command, sent back as `node.invoke.result`;
/// `payload` is JSON text.
pub struct NodeInvokeResultParams {
    pub id: String,
    pub node_id: String,
    pub ok: bool,
    pub payload: Option<String>,
    pub payload_json: Option<String>,
    pub error: Option<InvokeError>,
}

/// The result of invoke `invoke_id` from the command's outcome: its payload
/// on success, else the error under code `COMMAND_ERROR`.
pub fn invoke_result(invoke_id: String, node_id: &str, outcome: Result<String, String>) -> (r: NodeInvokeResultParams)
    ensures
        r.id == invoke_id,
        r.node_id@ == node_id@,
        r.payload_json is None,
        match outcome {
            Ok(p) => r.ok && r.payload == Some(p) && r.error is None,
            Err(e) => !r.ok && r.payload is None
                && (r.error matches Some(ie) && ie.code@ == "COMMAND_ERROR"@ && ie.message == e),
        },
{
    match outcome {
        Ok(p) => NodeInvokeResultParams {
            id: invoke_id,
            node_id: owned(node_id),
            ok: true,
            payload: Some(p),
            payload_json: None,
            error: None,
        },
        Err(e) => NodeInvokeResultParams {
            id: invoke_id,
            node_id: owned(node_id),
            ok: false,
            payload: None,
            payload_json: None,
            error: Some(InvokeError { code: owned("COMMAND_ERROR"), message: e }),
        },
    }
}

/// A result reported for invoke `invoke_id`: the payload only on success,
/// the error, if any, under code `ERROR`.
pub fn send_result(invoke_id: &str, node_id: &str, success: bool, payload: String, error: Option<String>)
    -> (r: NodeInvokeResultParams)
    ensures
        r.id@ == invoke_id@,
        r.node_id@ == node_id@,
        r.ok == success,
        r.payload == (if success { Some(payload) } else { None }),
        r.payload_json is None,
        match error {
            Some(m) => r.error matches Some(ie) && ie.code@ == "ERROR"@ && ie.message == m,
            None => r.error is None,
        },
{
    let error = match error {
        Some(m) => Some(InvokeError { code: owned("ERROR"), message: m }),
        None => None,
    };
    NodeInvokeResultParams {
        id: owned(invoke_id),
        node_id: owned(node_id),
        ok: success,
        payload: if success { Some(payload) } else { None },
        payload_json: None,
        error,
    }
}

} // verus!
