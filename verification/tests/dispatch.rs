use ed25519_dalek::{Signer, SigningKey};
use todoist_bot::interactions::commands::CommandPath;
use todoist_bot::interactions::dispatch::{
    Action, Completion, DispatchState, Dispatcher, Event, Phase, StatusCode,
};
use todoist_bot::interactions::signature::Verifier;
use todoist_bot::model::interaction::{
    CommandData, CommandDataOption, CommandOptionValue, Interaction, InteractionData,
    InteractionType, MessageComponentInteractionData,
};
use todoist_bot::model::response::{
    InteractionResponse, InteractionResponseData, InteractionResponseType, MessageFlags,
};
use todoist_bot::todoist::MoveTask;

fn to_hex(bytes: &[u8]) -> String {
    let digits = b"0123456789abcdef";
    let mut out = String::new();
    for b in bytes {
        out.push(digits[(b >> 4) as usize] as char);
        out.push(digits[(b & 15) as usize] as char);
    }
    out
}

fn key() -> SigningKey {
    SigningKey::from_bytes(&[5u8; 32])
}

fn dispatcher() -> Dispatcher {
    Dispatcher {
        verifier: Verifier::try_new(&to_hex(key().verifying_key().as_bytes())).unwrap(),
        error_mark: "<:red_x:1>".to_string(),
        success_mark: "<:green_tick:2>".to_string(),
        ack_deadline_ms: 1000,
        grace_deadline_ms: 600_000,
    }
}

fn request(timestamp: &str, body: &[u8]) -> Event {
    let mut message = timestamp.as_bytes().to_vec();
    message.extend_from_slice(body);
    Event::Request {
        signature: Some(to_hex(&key().sign(&message).to_bytes())),
        timestamp: Some(timestamp.to_string()),
        body: body.to_vec(),
    }
}

fn ephemeral(content: &str) -> InteractionResponse {
    InteractionResponse {
        kind: InteractionResponseType::ChannelMessageWithSource,
        data: Some(InteractionResponseData {
            components: None,
            content: Some(content.to_string()),
            flags: Some(MessageFlags { bits: 64 }),
        }),
    }
}

fn deferred_ack() -> InteractionResponse {
    InteractionResponse {
        kind: InteractionResponseType::DeferredChannelMessageWithSource,
        data: Some(InteractionResponseData {
            components: None,
            content: None,
            flags: Some(MessageFlags { bits: 64 }),
        }),
    }
}

fn interaction(kind: InteractionType, data: Option<InteractionData>) -> Interaction {
    Interaction { data, guild_id: None, kind, token: "token".to_string() }
}

fn command(name: &str, options: Vec<CommandDataOption>) -> Interaction {
    interaction(
        InteractionType::ApplicationCommand,
        Some(InteractionData::ApplicationCommand(CommandData {
            name: name.to_string(),
            options,
            resolved: None,
            target_id: None,
        })),
    )
}

fn component(custom_id: &str, values: &[&str]) -> Interaction {
    interaction(
        InteractionType::MessageComponent,
        Some(InteractionData::MessageComponent(MessageComponentInteractionData {
            custom_id: custom_id.to_string(),
            values: values.iter().map(|v| v.to_string()).collect(),
        })),
    )
}

fn executing(phase: Phase) -> DispatchState {
    DispatchState::Executing { phase, name: "today".to_string() }
}

fn done(content: &str) -> Event {
    Event::HandlerFinished(Completion::Done(Some(ephemeral(content))))
}

fn all_events() -> Vec<Event> {
    vec![
        request("1", b"{}"),
        Event::Decoded(None),
        Event::Decoded(Some(command("today", vec![]))),
        Event::Launched,
        Event::NoHandler,
        done("x"),
        Event::HandlerFinished(Completion::Done(None)),
        Event::HandlerFinished(Completion::Broken("panic".to_string())),
        Event::Moved(Ok(())),
        Event::Moved(Err("e".to_string())),
        Event::AckDeadline,
        Event::GraceDeadline,
    ]
}

#[test]
fn status_codes() {
    assert_eq!(StatusCode::BadRequest.code(), 400);
    assert_eq!(StatusCode::Unauthorized.code(), 401);
}

#[test]
fn authentic_request_is_verified() {
    let d = dispatcher();
    let step = d.step(DispatchState::Received, request("1700000000", br#"{"type":1}"#));
    assert_eq!(step, (DispatchState::Verified, Action::Decode));
}

#[test]
fn request_without_headers_is_a_bad_request() {
    let d = dispatcher();
    let Event::Request { signature, timestamp, body } = request("1", b"x") else { unreachable!() };
    let no_signature = Event::Request { signature: None, timestamp: timestamp.clone(), body: body.clone() };
    assert_eq!(
        d.step(DispatchState::Received, no_signature),
        (DispatchState::Rejected, Action::Reject(StatusCode::BadRequest))
    );
    let no_timestamp = Event::Request { signature, timestamp: None, body };
    assert_eq!(
        d.step(DispatchState::Received, no_timestamp),
        (DispatchState::Rejected, Action::Reject(StatusCode::BadRequest))
    );
}

#[test]
fn forged_request_is_unauthorized() {
    let d = dispatcher();
    let Event::Request { signature, timestamp, .. } = request("1", b"x") else { unreachable!() };
    let forged = Event::Request { signature, timestamp, body: b"y".to_vec() };
    assert_eq!(
        d.step(DispatchState::Received, forged),
        (DispatchState::Rejected, Action::Reject(StatusCode::Unauthorized))
    );
    let garbled = Event::Request {
        signature: Some("zz".to_string()),
        timestamp: Some("1".to_string()),
        body: b"x".to_vec(),
    };
    assert_eq!(
        d.step(DispatchState::Received, garbled),
        (DispatchState::Rejected, Action::Reject(StatusCode::Unauthorized))
    );
}

#[test]
fn malformed_body_is_a_bad_request() {
    let d = dispatcher();
    assert_eq!(
        d.step(DispatchState::Verified, Event::Decoded(None)),
        (DispatchState::Rejected, Action::Reject(StatusCode::BadRequest))
    );
}

#[test]
fn ping_is_answered_with_pong() {
    let d = dispatcher();
    let pong = InteractionResponse { kind: InteractionResponseType::Pong, data: None };
    assert_eq!(
        d.step(DispatchState::Verified, Event::Decoded(Some(interaction(InteractionType::Ping, None)))),
        (DispatchState::RespondedImmediate, Action::Reply(pong))
    );
}

#[test]
fn command_is_resolved_and_launched() {
    let d = dispatcher();
    let inner = vec![CommandDataOption {
        name: "text".to_string(),
        value: CommandOptionValue::String("buy milk".to_string()),
    }];
    let payload = command(
        "task",
        vec![CommandDataOption { name: "add".to_string(), value: CommandOptionValue::SubCommand(inner) }],
    );
    let (state, action) = d.step(DispatchState::Verified, Event::Decoded(Some(payload)));
    assert_eq!(state, DispatchState::Resolved { phase: Phase::Slash, name: "task".to_string() });
    let expected_options = vec![CommandDataOption {
        name: "text".to_string(),
        value: CommandOptionValue::String("buy milk".to_string()),
    }];
    assert_eq!(
        action,
        Action::Launch { path: CommandPath::parse("task add").unwrap(), options: expected_options }
    );
    let (state, action) = d.step(state, Event::Launched);
    assert_eq!(state, DispatchState::Executing { phase: Phase::Slash, name: "task".to_string() });
    assert_eq!(action, Action::Nothing);
}

#[test]
fn unresolvable_command_is_a_bad_request() {
    let d = dispatcher();
    let payload = command(
        "task",
        vec![CommandDataOption {
            name: "group".to_string(),
            value: CommandOptionValue::SubCommandGroup(vec![]),
        }],
    );
    assert_eq!(
        d.step(DispatchState::Verified, Event::Decoded(Some(payload))),
        (DispatchState::Rejected, Action::Reject(StatusCode::BadRequest))
    );
    let not_a_subcommand = command(
        "task",
        vec![CommandDataOption {
            name: "group".to_string(),
            value: CommandOptionValue::SubCommandGroup(vec![CommandDataOption {
                name: "text".to_string(),
                value: CommandOptionValue::String("x".to_string()),
            }]),
        }],
    );
    assert_eq!(
        d.route(not_a_subcommand),
        (DispatchState::Rejected, Action::Reject(StatusCode::BadRequest))
    );
    assert_eq!(
        d.route(command("", vec![])),
        (DispatchState::Rejected, Action::Reject(StatusCode::BadRequest))
    );
}

#[test]
fn command_with_a_space_in_its_name_is_looked_up_as_one_segment() {
    let d = dispatcher();
    let (state, action) = d.route(command("Add To-Do", vec![]));
    assert_eq!(state, DispatchState::Resolved { phase: Phase::Slash, name: "Add To-Do".to_string() });
    let expected = CommandPath::from_segments(vec!["Add To-Do".to_string()]).unwrap();
    assert_eq!(action, Action::Launch { path: expected, options: vec![] });
}

#[test]
fn command_without_payload_is_unhandled() {
    let d = dispatcher();
    let payload = interaction(InteractionType::ApplicationCommand, None);
    assert_eq!(
        d.step(DispatchState::Verified, Event::Decoded(Some(payload))),
        (DispatchState::RespondedImmediate, Action::ReplyUnhandled)
    );
    let payload = interaction(InteractionType::ApplicationCommand, Some(InteractionData::ModalSubmit));
    assert_eq!(d.route(payload), (DispatchState::RespondedImmediate, Action::ReplyUnhandled));
}

#[test]
fn other_kinds_get_the_no_handler_notice() {
    let d = dispatcher();
    assert_eq!(
        d.route(interaction(InteractionType::ModalSubmit, None)),
        (
            DispatchState::RespondedImmediate,
            Action::Reply(ephemeral("No handler found for interaction kind: `ModalSubmit`"))
        )
    );
    assert_eq!(
        d.step(
            DispatchState::Verified,
            Event::Decoded(Some(interaction(
                InteractionType::ApplicationCommandAutocomplete,
                Some(InteractionData::ModalSubmit)
            )))
        ),
        (
            DispatchState::RespondedImmediate,
            Action::Reply(ephemeral(
                "No handler found for interaction kind: `ApplicationCommandAutocomplete`"
            ))
        )
    );
}

#[test]
fn component_without_payload_is_a_bad_request() {
    let d = dispatcher();
    assert_eq!(
        d.route(interaction(InteractionType::MessageComponent, None)),
        (DispatchState::Rejected, Action::Reject(StatusCode::BadRequest))
    );
    assert_eq!(
        d.route(interaction(InteractionType::MessageComponent, Some(InteractionData::ModalSubmit))),
        (DispatchState::Rejected, Action::Reject(StatusCode::BadRequest))
    );
}

#[test]
fn interaction_kind_names() {
    assert_eq!(InteractionType::Ping.name(), "Ping");
    assert_eq!(InteractionType::ApplicationCommand.name(), "ApplicationCommand");
    assert_eq!(InteractionType::MessageComponent.name(), "MessageComponent");
    assert_eq!(
        InteractionType::ApplicationCommandAutocomplete.name(),
        "ApplicationCommandAutocomplete"
    );
    assert_eq!(InteractionType::ModalSubmit.name(), "ModalSubmit");
}

#[test]
fn missing_slash_handler_falls_back_to_context_commands() {
    let d = dispatcher();
    let resolved = DispatchState::Resolved { phase: Phase::Slash, name: "Add To-Do".to_string() };
    let (state, action) = d.step(resolved, Event::NoHandler);
    assert_eq!(state, DispatchState::Resolved { phase: Phase::Context, name: "Add To-Do".to_string() });
    assert_eq!(action, Action::LaunchContext { name: "Add To-Do".to_string() });

    let (state, action) = d.step(executing(Phase::Slash), Event::HandlerFinished(Completion::Done(None)));
    assert_eq!(state, DispatchState::Resolved { phase: Phase::Context, name: "today".to_string() });
    assert_eq!(action, Action::LaunchContext { name: "today".to_string() });
}

#[test]
fn missing_handler_is_reported() {
    let d = dispatcher();
    let resolved = DispatchState::Resolved { phase: Phase::Context, name: "nope".to_string() };
    assert_eq!(
        d.step(resolved, Event::NoHandler),
        (
            DispatchState::RespondedImmediate,
            Action::Reply(ephemeral("No handler found for command: `nope`"))
        )
    );
}

#[test]
fn context_handler_without_response_is_reported() {
    let d = dispatcher();
    assert_eq!(
        d.step(executing(Phase::Context), Event::HandlerFinished(Completion::Done(None))),
        (
            DispatchState::RespondedImmediate,
            Action::Reply(ephemeral("An error occurred while processing your command."))
        )
    );
}

#[test]
fn broken_handler_is_reported() {
    let d = dispatcher();
    for phase in [Phase::Slash, Phase::Context] {
        let broken = Event::HandlerFinished(Completion::Broken("task panicked".to_string()));
        assert_eq!(
            d.step(executing(phase), broken),
            (
                DispatchState::RespondedImmediate,
                Action::Reply(ephemeral(
                    "<:red_x:1> An error occurred while processing your command: task panicked"
                ))
            )
        );
    }
}

#[test]
fn scenario_fast_handler_replies_at_once_without_follow_up() {
    let d = dispatcher();
    let (mut state, action) = d.step(executing(Phase::Slash), done("No tasks"));
    assert_eq!(state, DispatchState::RespondedImmediate);
    assert_eq!(action, Action::Reply(ephemeral("No tasks")));
    for event in all_events() {
        let (next, action) = d.step(state, event);
        assert_eq!(next, DispatchState::RespondedImmediate);
        assert_eq!(action, Action::Nothing);
        state = next;
    }
}

#[test]
fn scenario_slow_handler_is_deferred_and_followed_up_once() {
    let d = dispatcher();
    let (state, action) = d.step(executing(Phase::Slash), Event::AckDeadline);
    assert_eq!(state, DispatchState::RespondedDeferred);
    assert_eq!(action, Action::Defer(deferred_ack()));
    let (mut state, action) = d.step(state, done("done"));
    assert_eq!(state, DispatchState::FollowedUp);
    assert_eq!(action, Action::FollowUp(ephemeral("done")));
    for event in all_events() {
        let (next, action) = d.step(state, event);
        assert_eq!(next, DispatchState::FollowedUp);
        assert_eq!(action, Action::Nothing);
        state = next;
    }
}

#[test]
fn grace_expiry_leaves_the_placeholder() {
    let d = dispatcher();
    let (state, action) = d.step(DispatchState::RespondedDeferred, Event::GraceDeadline);
    assert_eq!((state, action), (DispatchState::GraceExpired, Action::Nothing));
    assert_eq!(
        d.step(DispatchState::GraceExpired, done("late")),
        (DispatchState::GraceExpired, Action::Nothing)
    );
    for ended in [Completion::Done(None), Completion::Broken("e".to_string())] {
        assert_eq!(
            d.step(DispatchState::RespondedDeferred, Event::HandlerFinished(ended)),
            (DispatchState::GraceExpired, Action::Nothing)
        );
    }
}

#[test]
fn events_that_a_state_does_not_wait_for_change_nothing() {
    let d = dispatcher();
    assert_eq!(d.step(DispatchState::Received, Event::AckDeadline), (DispatchState::Received, Action::Nothing));
    assert_eq!(d.step(DispatchState::Verified, Event::Launched), (DispatchState::Verified, Action::Nothing));
    assert_eq!(d.step(executing(Phase::Slash), Event::GraceDeadline), (executing(Phase::Slash), Action::Nothing));
    assert_eq!(d.step(DispatchState::Moving, Event::AckDeadline), (DispatchState::Moving, Action::Nothing));
    assert_eq!(
        d.step(DispatchState::RespondedDeferred, Event::AckDeadline),
        (DispatchState::RespondedDeferred, Action::Nothing)
    );
    for event in all_events() {
        assert_eq!(d.step(DispatchState::Rejected, event), (DispatchState::Rejected, Action::Nothing));
    }
}

#[test]
fn every_run_answers_at_most_once() {
    let d = dispatcher();
    let scripts: Vec<Vec<Event>> = vec![
        vec![request("1", b"b"), Event::Decoded(Some(command("today", vec![]))), Event::Launched, done("x"), Event::AckDeadline, done("y")],
        vec![request("1", b"b"), Event::Decoded(Some(command("today", vec![]))), Event::Launched, Event::AckDeadline, Event::AckDeadline, done("x"), done("y"), Event::GraceDeadline],
        vec![request("1", b"b"), Event::Decoded(Some(command("today", vec![]))), Event::NoHandler, Event::NoHandler, Event::NoHandler],
        vec![request("1", b"b"), request("1", b"b"), Event::Decoded(None), Event::Decoded(None)],
        vec![Event::Launched, done("x"), request("1", b"c"), Event::Decoded(Some(component("section_select:1", &["p-s"]))), Event::Moved(Ok(())), Event::Moved(Ok(()))],
    ];
    for script in scripts {
        let mut state = DispatchState::Received;
        let (mut answers, mut follow_ups) = (0, 0);
        for event in script {
            let (next, action) = d.step(state, event);
            match action {
                Action::Reply(_) | Action::ReplyUnhandled | Action::Defer(_) | Action::Reject(_) => answers += 1,
                Action::FollowUp(_) => follow_ups += 1,
                _ => {}
            }
            state = next;
        }
        assert_eq!(answers, 1);
        assert!(follow_ups <= 1);
        assert_eq!(follow_ups == 1, state == DispatchState::FollowedUp);
    }
}

#[test]
fn component_plans() {
    let d = dispatcher();
    let move_to = |task: &str, project: &str, section: Option<&str>| MoveTask {
        task_id: task.to_string(),
        project_id: Some(project.to_string()),
        section_id: section.map(String::from),
        parent_id: None,
    };
    assert_eq!(
        d.route(component("section_select:42", &["7-9"])),
        (DispatchState::Moving, Action::MoveTask(move_to("42", "7", Some("9"))))
    );
    assert_eq!(
        d.route(component("section_select:42", &["7", "8-1"])),
        (DispatchState::Moving, Action::MoveTask(move_to("42", "7", None)))
    );
    assert_eq!(
        d.route(component("section_select:42:extra", &[])),
        (DispatchState::Moving, Action::MoveTask(move_to("42", "", None)))
    );
    assert_eq!(
        d.route(component("section_select:42", &["a-b-c"])),
        (
            DispatchState::RespondedImmediate,
            Action::Reply(ephemeral("<:red_x:1> No project ID found in selection."))
        )
    );
    assert_eq!(
        d.route(component("section_select", &["7-9"])),
        (DispatchState::RespondedImmediate, Action::Reply(ephemeral("No task ID provided.")))
    );
    assert_eq!(
        d.route(component("other:1", &[])),
        (
            DispatchState::RespondedImmediate,
            Action::Reply(ephemeral("No handler for message component command: `other`"))
        )
    );
    assert_eq!(
        d.route(component("", &[])),
        (
            DispatchState::RespondedImmediate,
            Action::Reply(ephemeral("No handler for message component command: ``"))
        )
    );
}

#[test]
fn moved_task_is_reported() {
    let d = dispatcher();
    assert_eq!(
        d.step(DispatchState::Moving, Event::Moved(Ok(()))),
        (
            DispatchState::RespondedImmediate,
            Action::Reply(ephemeral("<:green_tick:2> Moved task to the selected project and section."))
        )
    );
    assert_eq!(
        d.step(DispatchState::Moving, Event::Moved(Err("not found".to_string()))),
        (
            DispatchState::RespondedImmediate,
            Action::Reply(ephemeral("<:red_x:1> Failed to move task: not found"))
        )
    );
}

#[test]
fn new_dispatcher_has_the_usual_deadlines() {
    let d = Dispatcher::new(dispatcher().verifier, "!".to_string(), "+".to_string());
    assert_eq!(d.error_mark, "!");
    assert_eq!(d.success_mark, "+");
    assert_eq!(d.ack_deadline_ms, 1_000);
    assert_eq!(d.grace_deadline_ms, 600_000);
    assert_eq!(todoist_bot::interactions::dispatch::ACK_DEADLINE_MS, 1_000);
    assert_eq!(todoist_bot::interactions::dispatch::GRACE_DEADLINE_MS, 600_000);
}
