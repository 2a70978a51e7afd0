use ed25519_dalek::{Signer, SigningKey};
use todoist_bot::interactions::dispatch::{Action, DispatchState, Dispatcher, Phase, StatusCode};
use todoist_bot::interactions::signature::Verifier;
use todoist_bot::model::interaction::{CommandData, Interaction, InteractionData, InteractionType};
use todoist_bot::model::response::{InteractionResponse, InteractionResponseType};
use todoist_bot::routes::{health, interaction_callback};

fn to_hex(bytes: &[u8]) -> String {
    let digits = b"0123456789abcdef";
    let mut out = String::new();
    for b in bytes {
        out.push(digits[(b >> 4) as usize] as char);
        out.push(digits[(b & 15) as usize] as char);
    }
    out
}

fn key() -> SigningKey {
    SigningKey::from_bytes(&[11u8; 32])
}

fn dispatcher() -> Dispatcher {
    Dispatcher {
        verifier: Verifier::try_new(&to_hex(key().verifying_key().as_bytes())).unwrap(),
        error_mark: "!".to_string(),
        success_mark: "+".to_string(),
        ack_deadline_ms: 1000,
        grace_deadline_ms: 600_000,
    }
}

fn sign(timestamp: &str, body: &[u8]) -> String {
    let mut message = timestamp.as_bytes().to_vec();
    message.extend_from_slice(body);
    to_hex(&key().sign(&message).to_bytes())
}

fn ping() -> Interaction {
    Interaction { data: None, guild_id: None, kind: InteractionType::Ping, token: "t".to_string() }
}

#[test]
fn health_is_ok() {
    assert_eq!(health(), "OK");
}

#[test]
fn callback_answers_a_signed_ping() {
    let body = br#"{"type":1}"#.to_vec();
    let signature = sign("1700000000", &body);
    let (state, action) = interaction_callback(
        &dispatcher(),
        Some(signature),
        Some("1700000000".to_string()),
        body,
        |_body| Some(ping()),
    );
    assert_eq!(state, DispatchState::RespondedImmediate);
    assert_eq!(
        action,
        Action::Reply(InteractionResponse { kind: InteractionResponseType::Pong, data: None })
    );
}

#[test]
fn callback_hands_the_verified_body_to_the_decoder() {
    let body = b"the body".to_vec();
    let signature = sign("5", &body);
    let mut seen = Vec::new();
    let (state, action) = interaction_callback(
        &dispatcher(),
        Some(signature),
        Some("5".to_string()),
        body,
        |body| {
            seen = body.clone();
            None
        },
    );
    assert_eq!(seen, b"the body");
    assert_eq!((state, action), (DispatchState::Rejected, Action::Reject(StatusCode::BadRequest)));
}

#[test]
fn callback_does_not_decode_an_unauthenticated_body() {
    let body = b"the body".to_vec();
    let signature = sign("5", b"another body");
    let mut decoded = false;
    let (state, action) = interaction_callback(
        &dispatcher(),
        Some(signature),
        Some("5".to_string()),
        body.clone(),
        |_body| {
            decoded = true;
            Some(ping())
        },
    );
    assert_eq!((state, action), (DispatchState::Rejected, Action::Reject(StatusCode::Unauthorized)));
    let (state, action) =
        interaction_callback(&dispatcher(), None, Some("5".to_string()), body.clone(), |_body| {
            decoded = true;
            Some(ping())
        });
    assert_eq!((state, action), (DispatchState::Rejected, Action::Reject(StatusCode::BadRequest)));
    let (state, action) =
        interaction_callback(&dispatcher(), Some(sign("5", &body)), None, body, |_body| {
            decoded = true;
            Some(ping())
        });
    assert_eq!((state, action), (DispatchState::Rejected, Action::Reject(StatusCode::BadRequest)));
    assert!(!decoded);
}

#[test]
fn callback_resolves_a_command() {
    let body = b"{}".to_vec();
    let signature = sign("5", &body);
    let command = Interaction {
        data: Some(InteractionData::ApplicationCommand(CommandData {
            name: "today".to_string(),
            options: vec![],
            resolved: None,
            target_id: None,
        })),
        guild_id: None,
        kind: InteractionType::ApplicationCommand,
        token: "t".to_string(),
    };
    let (state, action) =
        interaction_callback(&dispatcher(), Some(signature), Some("5".to_string()), body, |_b| {
            Some(command)
        });
    assert_eq!(state, DispatchState::Resolved { phase: Phase::Slash, name: "today".to_string() });
    match action {
        Action::Launch { path, options } => {
            assert_eq!(path.joined(), "today");
            assert!(options.is_empty());
        }
        other => panic!("unexpected action {:?}", other),
    }
}
