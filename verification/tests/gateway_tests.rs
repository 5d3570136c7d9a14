use clawops::gateway::{
    build_connect_params, build_pair_request, invoke_result, send_result, step, ErrorField, FrameFields,
    GatewayMessage, HandshakeAction, HandshakePhase, RequestFrame,
};
use clawops::node::DeviceParams;

fn frame() -> FrameFields {
    FrameFields { event: None, nonce: None, error: None, ok: None, payload_type: None, has_id: false, result: None }
}

fn fail_message(a: HandshakeAction) -> String {
    match a {
        HandshakeAction::Fail { message } => message,
        _ => panic!("expected a failure"),
    }
}

#[test]
fn request_frame_new_sets_frame_type_to_req() {
    let frame = RequestFrame::new("id-001".to_string(), "connect".to_string(), None);
    assert_eq!(frame.frame_type, "req");
    assert_eq!(frame.id, "id-001");
    assert_eq!(frame.method, "connect");
    assert!(frame.params.is_none());
}

#[test]
fn challenge_then_hello_registers_without_pairing() {
    let mut challenge = frame();
    challenge.event = Some(Some("connect.challenge".to_string()));
    challenge.nonce = Some("n-1".to_string());
    let (p, a) = step(HandshakePhase::AwaitChallenge, &GatewayMessage::Text(challenge));
    assert_eq!(p, HandshakePhase::AwaitHello);
    assert!(matches!(a, HandshakeAction::SendConnect { ref nonce } if nonce == "n-1"));
    let mut hello = frame();
    hello.ok = Some(true);
    hello.payload_type = Some("hello-ok".to_string());
    let (p, a) = step(p, &GatewayMessage::Text(hello));
    assert_eq!(p, HandshakePhase::Done);
    assert!(matches!(a, HandshakeAction::Registered { node_token: None }));
}

#[test]
fn pairing_keeps_the_token_and_answers_pings() {
    let (p, a) = step(HandshakePhase::AwaitHello, &GatewayMessage::Text(frame()));
    assert_eq!(p, HandshakePhase::Pairing);
    assert!(matches!(a, HandshakeAction::SendPairRequest));
    let (p, a) = step(p, &GatewayMessage::Ping(vec![1, 2]));
    assert_eq!(p, HandshakePhase::Pairing);
    assert!(matches!(a, HandshakeAction::SendPong { ref data } if data == &vec![1u8, 2]));
    let mut reply = frame();
    reply.has_id = true;
    reply.result = Some(Some("tok".to_string()));
    let (p, a) = step(p, &GatewayMessage::Text(reply));
    assert_eq!(p, HandshakePhase::Done);
    assert!(matches!(a, HandshakeAction::Registered { node_token: Some(ref t) } if t == "tok"));
}

#[test]
fn handshake_failures_carry_their_messages() {
    let mut err = frame();
    err.error = Some(ErrorField { message: Some("bad token".to_string()) });
    let (_, a) = step(HandshakePhase::AwaitChallenge, &GatewayMessage::Text(err));
    assert_eq!(fail_message(a), "gateway error on connect: bad token");
    let (_, a) = step(HandshakePhase::AwaitChallenge, &GatewayMessage::Close(None));
    assert_eq!(fail_message(a), "gateway closed connection: ");
    let (_, a) = step(HandshakePhase::AwaitChallenge, &GatewayMessage::TimedOut);
    assert_eq!(fail_message(a), "challenge timeout");
    let mut again = frame();
    again.event = Some(Some("connect.challenge".to_string()));
    let (_, a) = step(HandshakePhase::AwaitHello, &GatewayMessage::Text(again));
    assert_eq!(fail_message(a), "device signature rejected");
    let mut hello_err = frame();
    hello_err.error = Some(ErrorField { message: None });
    let (_, a) = step(HandshakePhase::AwaitHello, &GatewayMessage::Text(hello_err));
    assert_eq!(fail_message(a), "gateway error: unknown error");
    let (_, a) = step(HandshakePhase::AwaitHello, &GatewayMessage::SendFailed("broken pipe".to_string()));
    assert_eq!(fail_message(a), "failed to send connect: broken pipe");
    let (_, a) = step(HandshakePhase::Pairing, &GatewayMessage::Close(Some("bye".to_string())));
    assert_eq!(fail_message(a), "connection closed during pairing");
    let (p, a) = step(HandshakePhase::Pairing, &GatewayMessage::DeadlinePassed);
    assert_eq!(p, HandshakePhase::Done);
    assert!(matches!(a, HandshakeAction::Registered { node_token: None }));
}

#[test]
fn connect_and_pair_requests() {
    let device = DeviceParams {
        id: "dev".to_string(),
        public_key: "pk".to_string(),
        signature: "sig".to_string(),
        signed_at: 7,
        nonce: Some("n".to_string()),
    };
    let c = build_connect_params("host", "0.1.0", "linux x86_64", "inst", vec!["vps".to_string()], vec![], Some("t"), device);
    assert_eq!((c.min_protocol, c.max_protocol), (3, 3));
    assert_eq!(c.client.id, "node-host");
    assert_eq!(c.client.mode, "node");
    assert_eq!(c.auth.and_then(|a| a.token), Some("t".to_string()));
    assert_eq!(c.role, Some("node".to_string()));
    assert_eq!(c.scopes, Some(vec!["node".to_string()]));
    let p = build_pair_request("dev", "host", "linux", "0.1.0", vec![], vec!["vps.status".to_string()]);
    assert!(p.silent);
    assert_eq!(p.commands, vec!["vps.status".to_string()]);
}

#[test]
fn invoke_results() {
    let ok = invoke_result("i1".to_string(), "n1", Ok("{}".to_string()));
    assert!(ok.ok);
    assert_eq!(ok.payload, Some("{}".to_string()));
    let err = invoke_result("i2".to_string(), "n1", Err("boom".to_string()));
    assert!(!err.ok);
    let e = err.error.expect("error");
    assert_eq!((e.code.as_str(), e.message.as_str()), ("COMMAND_ERROR", "boom"));
    let sent = send_result("i3", "n1", false, "{}".to_string(), Some("nope".to_string()));
    assert!(sent.payload.is_none());
    assert_eq!(sent.error.expect("error").code, "ERROR");
}

#[test]
fn signed_connect_params_carry_the_nonce() {
    let id = clawops::identity::DeviceIdentity::from_secret_key([7u8; 32]);
    let c = clawops::gateway::signed_connect_params(
        &id, "host-1", "0.1.0", "linux", "inst-1", vec![], vec!["system.run".to_string()], Some("tok"), "n-123", 1_700_000_000_000,
    );
    let d = c.device.expect("device");
    assert_eq!(d.nonce.as_deref(), Some("n-123"));
    assert_eq!(d.signed_at, 1_700_000_000_000);
    let expected = id.device_params_at("node-host", "node", "node", &["node".to_string()], Some("tok"), Some("n-123"), 1_700_000_000_000);
    assert_eq!(d.signature, expected.signature);
    assert_eq!(c.client.id, "node-host");
}
