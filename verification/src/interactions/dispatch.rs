//! The dispatcher: the state machine that takes one interaction from the
//! request to its reply, and past a deferred reply to its follow-up.
//!
//! The machine does no outside work. It is handed what happened as an
//! [`Event`] and answers with the next state and the [`Action`] to perform.
//! The caller performs the action and reports what came of it as the next
//! event. A handler, once launched, is never cancelled: the machine only stops
//! waiting for it.

use crate::interactions::commands::{into_resolved, resolution, valid_path, CommandPath};
use crate::interactions::components::{component_plan, moved, not_moved, plan_component, render_moved};
use crate::interactions::components::{ComponentPlan, ComponentPlanView};
use crate::interactions::render::{broken_handler, context_failure, no_handler, no_kind_handler};
use crate::interactions::render::render_no_kind_handler;
use crate::interactions::render::{render_broken_handler, render_context_failure, render_no_handler};
use crate::interactions::signature::Verifier;
use crate::model::interaction::{CommandDataOption, Interaction, InteractionData, InteractionType};
use crate::model::response::{deferred_ack, pong, InteractionResponse, InteractionResponseView};
use crate::text::views;
use crate::todoist::{MoveTask, MoveTaskView};
use vstd::prelude::*;

verus! {

/// The HTTP status with which a request is turned away.
#[derive(Debug, Clone, Copy, PartialEq, Eq, Structural)]
pub enum StatusCode {
    BadRequest,
    Unauthorized,
}

impl StatusCode {
    /// The number of the status.
    pub fn code(self) -> (r: u16)
        ensures
            r == match self {
                StatusCode::BadRequest => 400u16,
                StatusCode::Unauthorized => 401u16,
            },
    {
        match self {
            StatusCode::BadRequest => 400,
            StatusCode::Unauthorized => 401,
        }
    }
}

/// Which registry a command is looked for in: the tree of slash commands
/// first, the context commands by name after it.
#[derive(Debug, Clone, Copy, PartialEq, Eq, Structural)]
pub enum Phase {
    Slash,
    Context,
}

/// Where an interaction stands.
#[derive(Debug, PartialEq, Eq)]
pub enum DispatchState {
    /// The request has arrived and is not authenticated.
    Received,
    /// The request is authentic; its body is not decoded.
    Verified,
    /// The command called `name` is resolved; its handler is not launched.
    Resolved { phase: Phase, name: String },
    /// The handler runs, and the acknowledgement deadline has not passed.
    Executing { phase: Phase, name: String },
    /// A component asked for a task to be moved, which is under way.
    Moving,
    /// The reply was given at once. Final.
    RespondedImmediate,
    /// The placeholder was given as the reply; the handler still runs.
    RespondedDeferred,
    /// The handler's response was sent after the placeholder. Final.
    FollowedUp,
    /// The placeholder stands: the handler came to nothing in time. Final.
    GraceExpired,
    /// The request was turned away. Final.
    Rejected,
}

/// The abstract value of a [`DispatchState`].
pub enum StateView {
    Received,
    Verified,
    Resolved { phase: Phase, name: Seq<char> },
    Executing { phase: Phase, name: Seq<char> },
    Moving,
    RespondedImmediate,
    RespondedDeferred,
    FollowedUp,
    GraceExpired,
    Rejected,
}

impl DeepView for DispatchState {
    type V = StateView;

    open spec fn deep_view(&self) -> StateView {
        match self {
            DispatchState::Received => StateView::Received,
            DispatchState::Verified => StateView::Verified,
            DispatchState::Resolved { phase, name } => StateView::Resolved { phase: *phase, name: name@ },
            DispatchState::Executing { phase, name } => StateView::Executing {
                phase: *phase,
                name: name@,
            },
            DispatchState::Moving => StateView::Moving,
            DispatchState::RespondedImmediate => StateView::RespondedImmediate,
            DispatchState::RespondedDeferred => StateView::RespondedDeferred,
            DispatchState::FollowedUp => StateView::FollowedUp,
            DispatchState::GraceExpired => StateView::GraceExpired,
            DispatchState::Rejected => StateView::Rejected,
        }
    }
}

impl StateView {
    /// No event leads out of the state.
    pub open spec fn is_final(self) -> bool {
        self is RespondedImmediate || self is FollowedUp || self is GraceExpired || self is Rejected
    }

    /// The request has been answered, with a reply or a rejection.
    pub open spec fn is_answered(self) -> bool {
        self.is_final() || self is RespondedDeferred
    }
}

/// How a launched handler ended.
#[derive(Debug, PartialEq, Eq)]
pub enum Completion {
    /// It ran to its end, with its rendered response, or with none where no
    /// handler was registered for the command.
    Done(Option<InteractionResponse>),
    /// It broke off; the text says why.
    Broken(String),
}

/// What happened outside the machine.
#[derive(Debug, PartialEq, Eq)]
pub enum Event {
    /// A request arrived, with the signature and timestamp headers it had.
    Request { signature: Option<String>, timestamp: Option<String>, body: Vec<u8> },
    /// The body was decoded as an interaction, or is malformed.
    Decoded(Option<Interaction>),
    /// The handler was launched.
    Launched,
    /// No handler is registered for the command.
    NoHandler,
    /// The handler ended.
    HandlerFinished(Completion),
    /// The task was moved, or could not be.
    Moved(Result<(), String>),
    /// The acknowledgement deadline passed.
    AckDeadline,
    /// The grace deadline passed.
    GraceDeadline,
}

/// What the caller is to do next.
#[derive(Debug, PartialEq, Eq)]
pub enum Action {
    /// Turn the request away with the status.
    Reject(StatusCode),
    /// Decode the body as an interaction.
    Decode,
    /// Launch the handler registered at `path` on `options`, and start the
    /// acknowledgement deadline.
    Launch { path: CommandPath, options: Vec<CommandDataOption> },
    /// Launch the context command called `name`, and start the acknowledgement
    /// deadline.
    LaunchContext { name: String },
    /// Move the task.
    MoveTask(MoveTask),
    /// Give the response as the reply to the request.
    Reply(InteractionResponse),
    /// Reply with the notice for a payload that is not of the interaction's
    /// kind.
    ReplyUnhandled,
    /// Give the placeholder as the reply to the request, keep waiting for the
    /// handler, and start the grace deadline.
    Defer(InteractionResponse),
    /// Send the response after the placeholder, under the interaction's token.
    FollowUp(InteractionResponse),
    /// Do nothing.
    Nothing,
}

/// The abstract value of an [`Action`].
pub enum ActionView {
    Reject(StatusCode),
    Decode,
    Launch { path: Seq<Seq<char>>, options: Seq<CommandDataOption> },
    LaunchContext { name: Seq<char> },
    MoveTask(MoveTaskView),
    Reply(InteractionResponseView),
    ReplyUnhandled,
    Defer(InteractionResponseView),
    FollowUp(InteractionResponseView),
    Nothing,
}

impl ActionView {
    /// The action answers the request: with a reply, the placeholder or a
    /// rejection.
    pub open spec fn answers(self) -> bool {
        self is Reply || self is ReplyUnhandled || self is Defer || self is Reject
    }
}

impl DeepView for Action {
    type V = ActionView;

    open spec fn deep_view(&self) -> ActionView {
        match self {
            Action::Reject(status) => ActionView::Reject(*status),
            Action::Decode => ActionView::Decode,
            Action::Launch { path, options } => ActionView::Launch { path: path@, options: options@ },
            Action::LaunchContext { name } => ActionView::LaunchContext { name: name@ },
            Action::MoveTask(task) => ActionView::MoveTask(task.deep_view()),
            Action::Reply(response) => ActionView::Reply(response.deep_view()),
            Action::ReplyUnhandled => ActionView::ReplyUnhandled,
            Action::Defer(response) => ActionView::Defer(response.deep_view()),
            Action::FollowUp(response) => ActionView::FollowUp(response.deep_view()),
            Action::Nothing => ActionView::Nothing,
        }
    }
}

/// What a decoded interaction leads to.
/// - A ping is answered.
/// - An application command whose path resolves is launched; one whose path
///   does not resolve is turned away as a bad request; one without its payload
///   gets the notice for that.
/// - A message component leads to what its identifier asks for; one without
///   its payload is turned away as a bad request.
/// - An interaction of any other kind gets the notice that no handler is
///   registered for the kind.
pub open spec fn routed(interaction: Interaction, error_mark: Seq<char>) -> (StateView, ActionView) {
    match interaction.kind {
        InteractionType::Ping => (StateView::RespondedImmediate, ActionView::Reply(pong())),
        InteractionType::ApplicationCommand => match interaction.data {
            Some(InteractionData::ApplicationCommand(command)) => match resolution(command) {
                Some((path, options)) if valid_path(path) => (
                    StateView::Resolved { phase: Phase::Slash, name: command.name@ },
                    ActionView::Launch { path, options },
                ),
                _ => (StateView::Rejected, ActionView::Reject(StatusCode::BadRequest)),
            },
            _ => (StateView::RespondedImmediate, ActionView::ReplyUnhandled),
        },
        InteractionType::MessageComponent => match interaction.data {
            Some(InteractionData::MessageComponent(data)) => match component_plan(
                data.custom_id@,
                views(data.values@),
                error_mark,
            ) {
                ComponentPlanView::Reply(response) => (
                    StateView::RespondedImmediate,
                    ActionView::Reply(response),
                ),
                ComponentPlanView::Move(task) => (StateView::Moving, ActionView::MoveTask(task)),
            },
            _ => (StateView::Rejected, ActionView::Reject(StatusCode::BadRequest)),
        },
        kind => (StateView::RespondedImmediate, ActionView::Reply(no_kind_handler(kind))),
    }
}

/// The dispatcher of one deployment: the verifier of inbound requests, the
/// markers that notices carry, and the two deadlines.
pub struct Dispatcher {
    pub verifier: Verifier,
    /// The marker in front of a notice for a failure.
    pub error_mark: String,
    /// The marker in front of a notice for a success.
    pub success_mark: String,
    /// How long the reply waits for the handler, in milliseconds.
    pub ack_deadline_ms: u64,
    /// How long the follow-up waits for the handler, in milliseconds.
    pub grace_deadline_ms: u64,
}

/// How long the reply waits for the handler unless told otherwise, in
/// milliseconds: well within the three seconds that the platform allows.
pub const ACK_DEADLINE_MS: u64 = 1000;

/// How long the follow-up waits for the handler unless told otherwise, in
/// milliseconds: ten minutes, within the life of the interaction's token.
pub const GRACE_DEADLINE_MS: u64 = 600000;

impl Dispatcher {
    /// The dispatcher with the usual deadlines.
    pub fn new(verifier: Verifier, error_mark: String, success_mark: String) -> (r: Dispatcher)
        ensures
            r.verifier == verifier,
            r.error_mark == error_mark,
            r.success_mark == success_mark,
            r.ack_deadline_ms == ACK_DEADLINE_MS,
            r.grace_deadline_ms == GRACE_DEADLINE_MS,
    {
        Dispatcher {
            verifier,
            error_mark,
            success_mark,
            ack_deadline_ms: ACK_DEADLINE_MS,
            grace_deadline_ms: GRACE_DEADLINE_MS,
        }
    }

    /// The state that `event` leads to from `state`, and the action to
    /// perform. An event that the state does not wait for changes nothing.
    pub open spec fn next(self, state: StateView, event: Event) -> (StateView, ActionView) {
        match (state, event) {
            (StateView::Received, Event::Request { signature, timestamp, body }) => match (
                signature,
                timestamp,
            ) {
                (Some(s), Some(t)) => if self.verifier.accepts(s@, t@, body@) {
                    (StateView::Verified, ActionView::Decode)
                } else {
                    (StateView::Rejected, ActionView::Reject(StatusCode::Unauthorized))
                },
                _ => (StateView::Rejected, ActionView::Reject(StatusCode::BadRequest)),
            },
            (StateView::Verified, Event::Decoded(None)) => (
                StateView::Rejected,
                ActionView::Reject(StatusCode::BadRequest),
            ),
            (StateView::Verified, Event::Decoded(Some(interaction))) => routed(
                interaction,
                self.error_mark@,
            ),
            (StateView::Resolved { phase, name }, Event::Launched) => (
                StateView::Executing { phase, name },
                ActionView::Nothing,
            ),
            (StateView::Resolved { phase: Phase::Slash, name }, Event::NoHandler) => (
                StateView::Resolved { phase: Phase::Context, name },
                ActionView::LaunchContext { name },
            ),
            (StateView::Resolved { phase: Phase::Context, name }, Event::NoHandler) => (
                StateView::RespondedImmediate,
                ActionView::Reply(no_handler(name)),
            ),
            (
                StateView::Executing { phase, name },
                Event::HandlerFinished(Completion::Done(Some(response))),
            ) => (StateView::RespondedImmediate, ActionView::Reply(response.deep_view())),
            (
                StateView::Executing { phase: Phase::Slash, name },
                Event::HandlerFinished(Completion::Done(None)),
            ) => (
                StateView::Resolved { phase: Phase::Context, name },
                ActionView::LaunchContext { name },
            ),
            (
                StateView::Executing { phase: Phase::Context, name },
                Event::HandlerFinished(Completion::Done(None)),
            ) => (StateView::RespondedImmediate, ActionView::Reply(context_failure())),
            (StateView::Executing { phase, name }, Event::HandlerFinished(Completion::Broken(error))) => (
                StateView::RespondedImmediate,
                ActionView::Reply(broken_handler(self.error_mark@, error@)),
            ),
            (StateView::Executing { phase, name }, Event::AckDeadline) => (
                StateView::RespondedDeferred,
                ActionView::Defer(deferred_ack()),
            ),
            (StateView::Moving, Event::Moved(outcome)) => (
                StateView::RespondedImmediate,
                ActionView::Reply(
                    match outcome {
                        Ok(_) => moved(self.success_mark@),
                        Err(error) => not_moved(self.error_mark@, error@),
                    },
                ),
            ),
            (
                StateView::RespondedDeferred,
                Event::HandlerFinished(Completion::Done(Some(response))),
            ) => (StateView::FollowedUp, ActionView::FollowUp(response.deep_view())),
            (StateView::RespondedDeferred, Event::HandlerFinished(_)) => (
                StateView::GraceExpired,
                ActionView::Nothing,
            ),
            (StateView::RespondedDeferred, Event::GraceDeadline) => (
                StateView::GraceExpired,
                ActionView::Nothing,
            ),
            _ => (state, ActionView::Nothing),
        }
    }

    /// Takes one step: the state that `event` leads to from `state`, and the
    /// action to perform.
    pub fn step(&self, state: DispatchState, event: Event) -> (r: (DispatchState, Action))
        ensures
            (r.0.deep_view(), r.1.deep_view()) == self.next(state.deep_view(), event),
            event matches Event::HandlerFinished(Completion::Done(Some(response))) ==> (r.1 matches Action::Reply(
                sent,
            ) ==> sent == response) && (r.1 matches Action::FollowUp(sent) ==> sent == response),
    {
        match state {
            DispatchState::Received => match event {
                Event::Request { signature, timestamp, body } => match (signature, timestamp) {
                    (Some(s), Some(t)) => {
                        match self.verifier.verify(s.as_str(), t.as_str(), body.as_slice()) {
                            Ok(_) => (DispatchState::Verified, Action::Decode),
                            Err(_) => (DispatchState::Rejected, Action::Reject(StatusCode::Unauthorized)),
                        }
                    },
                    _ => (DispatchState::Rejected, Action::Reject(StatusCode::BadRequest)),
                },
                _ => (DispatchState::Received, Action::Nothing),
            },
            DispatchState::Verified => match event {
                Event::Decoded(None) => (DispatchState::Rejected, Action::Reject(StatusCode::BadRequest)),
                Event::Decoded(Some(interaction)) => self.route(interaction),
                _ => (DispatchState::Verified, Action::Nothing),
            },
            DispatchState::Resolved { phase, name } => match event {
                Event::Launched => (DispatchState::Executing { phase, name }, Action::Nothing),
                Event::NoHandler => match phase {
                    Phase::Slash => {
                        let again = name.clone();
                        (
                            DispatchState::Resolved { phase: Phase::Context, name },
                            Action::LaunchContext { name: again },
                        )
                    },
                    Phase::Context => (
                        DispatchState::RespondedImmediate,
                        Action::Reply(render_no_handler(name.as_str())),
                    ),
                },
                _ => (DispatchState::Resolved { phase, name }, Action::Nothing),
            },
            DispatchState::Executing { phase, name } => match event {
                Event::HandlerFinished(Completion::Done(Some(response))) => (
                    DispatchState::RespondedImmediate,
                    Action::Reply(response),
                ),
                Event::HandlerFinished(Completion::Done(None)) => match phase {
                    Phase::Slash => {
                        let again = name.clone();
                        (
                            DispatchState::Resolved { phase: Phase::Context, name },
                            Action::LaunchContext { name: again },
                        )
                    },
                    Phase::Context => (
                        DispatchState::RespondedImmediate,
                        Action::Reply(render_context_failure()),
                    ),
                },
                Event::HandlerFinished(Completion::Broken(error)) => (
                    DispatchState::RespondedImmediate,
                    Action::Reply(render_broken_handler(self.error_mark.as_str(), error.as_str())),
                ),
                Event::AckDeadline => (
                    DispatchState::RespondedDeferred,
                    Action::Defer(InteractionResponse::new_deferred_ack()),
                ),
                _ => (DispatchState::Executing { phase, name }, Action::Nothing),
            },
            DispatchState::Moving => match event {
                Event::Moved(outcome) => (
                    DispatchState::RespondedImmediate,
                    Action::Reply(
                        render_moved(outcome, self.success_mark.as_str(), self.error_mark.as_str()),
                    ),
                ),
                _ => (DispatchState::Moving, Action::Nothing),
            },
            DispatchState::RespondedDeferred => match event {
                Event::HandlerFinished(Completion::Done(Some(response))) => (
                    DispatchState::FollowedUp,
                    Action::FollowUp(response),
                ),
                Event::HandlerFinished(_) => (DispatchState::GraceExpired, Action::Nothing),
                Event::GraceDeadline => (DispatchState::GraceExpired, Action::Nothing),
                _ => (DispatchState::RespondedDeferred, Action::Nothing),
            },
            DispatchState::RespondedImmediate => (DispatchState::RespondedImmediate, Action::Nothing),
            DispatchState::FollowedUp => (DispatchState::FollowedUp, Action::Nothing),
            DispatchState::GraceExpired => (DispatchState::GraceExpired, Action::Nothing),
            DispatchState::Rejected => (DispatchState::Rejected, Action::Nothing),
        }
    }

    /// Decides what a decoded interaction leads to.
    pub fn route(&self, interaction: Interaction) -> (r: (DispatchState, Action))
        ensures
            (r.0.deep_view(), r.1.deep_view()) == routed(interaction, self.error_mark@),
    {
        let Interaction { data, guild_id: _, kind, token: _ } = interaction;
        match kind {
            InteractionType::Ping => (
                DispatchState::RespondedImmediate,
                Action::Reply(InteractionResponse::new_pong()),
            ),
            InteractionType::ApplicationCommand => match data {
                Some(InteractionData::ApplicationCommand(command)) => {
                    let name = command.name.clone();
                    match into_resolved(command) {
                        Some((path, options)) => (
                            DispatchState::Resolved { phase: Phase::Slash, name },
                            Action::Launch { path, options },
                        ),
                        None => (DispatchState::Rejected, Action::Reject(StatusCode::BadRequest)),
                    }
                },
                _ => (DispatchState::RespondedImmediate, Action::ReplyUnhandled),
            },
            InteractionType::MessageComponent => match data {
                Some(InteractionData::MessageComponent(component)) => {
                    match plan_component(&component, self.error_mark.as_str()) {
                        ComponentPlan::Reply(response) => (
                            DispatchState::RespondedImmediate,
                            Action::Reply(response),
                        ),
                        ComponentPlan::Move(task) => (DispatchState::Moving, Action::MoveTask(task)),
                    }
                },
                _ => (DispatchState::Rejected, Action::Reject(StatusCode::BadRequest)),
            },
            kind => (DispatchState::RespondedImmediate, Action::Reply(render_no_kind_handler(kind))),
        }
    }
}

/// The number of actions among `actions` that answer the request.
pub open spec fn answers_in(actions: Seq<ActionView>) -> nat
    decreases actions.len(),
{
    if actions.len() == 0 {
        0
    } else {
        answers_in(actions.drop_last()) + if actions.last().answers() {
            1nat
        } else {
            0nat
        }
    }
}

/// The number of follow-ups among `actions`.
pub open spec fn follow_ups_in(actions: Seq<ActionView>) -> nat
    decreases actions.len(),
{
    if actions.len() == 0 {
        0
    } else {
        follow_ups_in(actions.drop_last()) + if actions.last() is FollowUp {
            1nat
        } else {
            0nat
        }
    }
}

impl Dispatcher {
    /// The state that a sequence of events leads to from `state`, with the
    /// actions of the steps in order.
    pub open spec fn run(self, state: StateView, events: Seq<Event>) -> (StateView, Seq<ActionView>)
        decreases events.len(),
    {
        if events.len() == 0 {
            (state, Seq::empty())
        } else {
            let (middle, actions) = self.run(state, events.drop_last());
            let (end, action) = self.next(middle, events.last());
            (end, actions.push(action))
        }
    }

    /// Nothing happens in a final state: every event leaves the state as it is
    /// and asks for no action.
    pub proof fn lemma_final_absorbs(self, state: StateView, event: Event)
        requires
            state.is_final(),
        ensures
            self.next(state, event) == (state, ActionView::Nothing),
    {
    }

    /// From a final state, every sequence of events leaves the state as it is,
    /// and no step asks for an action.
    pub proof fn lemma_final_run(self, state: StateView, events: Seq<Event>)
        requires
            state.is_final(),
        ensures
            self.run(state, events).0 == state,
            self.run(state, events).1.len() == events.len(),
            forall|i: int| 0 <= i < events.len() ==> (#[trigger] self.run(state, events).1[i]) is Nothing,
            answers_in(self.run(state, events).1) == 0,
            follow_ups_in(self.run(state, events).1) == 0,
        decreases events.len(),
    {
        if events.len() > 0 {
            self.lemma_final_run(state, events.drop_last());
            let (middle, actions) = self.run(state, events.drop_last());
            self.lemma_final_absorbs(middle, events.last());
            assert(actions.push(ActionView::Nothing).drop_last() == actions);
        }
    }

    /// A handler that ends before the acknowledgement deadline: its response
    /// is the reply to the request, and whatever happens afterwards, no
    /// follow-up is sent and nothing else is done.
    pub proof fn lemma_immediate_reply(
        self,
        phase: Phase,
        name: Seq<char>,
        response: InteractionResponse,
        later: Seq<Event>,
    )
        ensures
            ({
                let finished = Event::HandlerFinished(Completion::Done(Some(response)));
                let (state, action) = self.next(StateView::Executing { phase, name }, finished);
                let (end, actions) = self.run(state, later);
                &&& state == StateView::RespondedImmediate
                &&& action == ActionView::Reply(response.deep_view())
                &&& end == StateView::RespondedImmediate
                &&& follow_ups_in(actions) == 0
                &&& answers_in(actions) == 0
                &&& forall|i: int| 0 <= i < actions.len() ==> (#[trigger] actions[i]) is Nothing
            }),
    {
        self.lemma_final_run(StateView::RespondedImmediate, later);
    }

    /// A handler that ends after the acknowledgement deadline and before the
    /// grace deadline: the reply to the request is the placeholder, the
    /// handler's response is sent as a follow-up when the handler ends, and
    /// whatever happens afterwards, no second follow-up is sent. Other events
    /// may come between the deadline and the end of the handler, as long as
    /// the handler does not end and the grace deadline does not pass.
    pub proof fn lemma_deferred_follow_up(
        self,
        phase: Phase,
        name: Seq<char>,
        response: InteractionResponse,
        later: Seq<Event>,
    )
        ensures
            ({
                let finished = Event::HandlerFinished(Completion::Done(Some(response)));
                let (waiting, placeholder) = self.next(
                    StateView::Executing { phase, name },
                    Event::AckDeadline,
                );
                let (state, action) = self.next(waiting, finished);
                let (end, actions) = self.run(state, later);
                &&& waiting == StateView::RespondedDeferred
                &&& placeholder == ActionView::Defer(deferred_ack())
                &&& state == StateView::FollowedUp
                &&& action == ActionView::FollowUp(response.deep_view())
                &&& end == StateView::FollowedUp
                &&& follow_ups_in(actions) == 0
                &&& answers_in(actions) == 0
            }),
    {
        self.lemma_final_run(StateView::FollowedUp, later);
    }

    /// Once the grace deadline has passed, the placeholder stands: the
    /// handler's response is not sent, whenever the handler ends.
    pub proof fn lemma_grace_expired(self, later: Seq<Event>)
        ensures
            ({
                let (state, action) = self.next(StateView::RespondedDeferred, Event::GraceDeadline);
                let (end, actions) = self.run(state, later);
                &&& state == StateView::GraceExpired
                &&& action == ActionView::Nothing
                &&& end == StateView::GraceExpired
                &&& follow_ups_in(actions) == 0
            }),
    {
        self.lemma_final_run(StateView::GraceExpired, later);
    }

    /// What holds after every run that starts with the arrival of a request.
    pub open spec fn consistent(state: StateView, actions: Seq<ActionView>) -> bool {
        &&& answers_in(actions) == if state.is_answered() {
            1nat
        } else {
            0nat
        }
        &&& follow_ups_in(actions) == if state is FollowedUp {
            1nat
        } else {
            0nat
        }
    }

    /// One step keeps a run consistent.
    proof fn lemma_step_consistent(self, state: StateView, actions: Seq<ActionView>, event: Event)
        requires
            Self::consistent(state, actions),
        ensures
            Self::consistent(self.next(state, event).0, actions.push(self.next(state, event).1)),
    {
        let action = self.next(state, event).1;
        assert(actions.push(action).drop_last() == actions);
    }

    /// Whatever events arrive for an interaction, and in whatever order: the
    /// request is answered at most once, and exactly once when the interaction
    /// has come to a final state or waits for a deferred handler; a follow-up
    /// is sent at most once, and exactly once when the interaction ends as
    /// followed up.
    pub proof fn lemma_one_answer(self, events: Seq<Event>)
        ensures
            ({
                let (end, actions) = self.run(StateView::Received, events);
                &&& answers_in(actions) <= 1
                &&& follow_ups_in(actions) <= 1
                &&& answers_in(actions) == 1 <==> end.is_answered()
                &&& follow_ups_in(actions) == 1 <==> end is FollowedUp
            }),
    {
        self.lemma_run_consistent(events);
    }

    /// Every run that starts with the arrival of a request is consistent.
    proof fn lemma_run_consistent(self, events: Seq<Event>)
        ensures
            Self::consistent(
                self.run(StateView::Received, events).0,
                self.run(StateView::Received, events).1,
            ),
        decreases events.len(),
    {
        if events.len() > 0 {
            self.lemma_run_consistent(events.drop_last());
            let (middle, actions) = self.run(StateView::Received, events.drop_last());
            self.lemma_step_consistent(middle, actions, events.last());
        }
    }
}

} // verus!
