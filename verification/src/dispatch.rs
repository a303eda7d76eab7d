//! The course of one invocation, as a state machine that the caller drives.
//!
//! The machine decides; the caller acts. Each `step` names the next thing to
//! do. The caller does it, over whatever transport it holds, and reports the
//! outcome with the next `step`.

use vstd::prelude::*;

use crate::command::Command;
use crate::command::CommandModel;
use crate::command::ResolvedCommand;
use crate::command::ResolvedCommandModel;
use crate::fields::text_of;
use crate::fields::NotificationRequest;
use crate::fields::RequestModel;
use crate::payload::Payload;
use crate::payload::PayloadModel;
use crate::reaction::plan;
use crate::reaction::plan_for;
use crate::reaction::PayloadKind;
use crate::reaction::ReactionToken;
use crate::weekday::local_weekday_now;
use crate::weekday::Weekday;

verus! {

/// What became of the action that the last step asked for.
#[derive(Clone, Copy, Debug, PartialEq, Eq, Hash, Structural)]
pub enum Outcome {
    /// The action was carried out, or there was none to carry out.
    Done,
    /// The transport could not carry out the action.
    TransportFailure,
}

/// What the caller is to do before the next step.
#[derive(Clone, Debug, PartialEq, Eq)]
pub enum Action {
    /// Nothing; step again.
    Continue,
    /// Send the payload as one message to the invoking channel.
    SendMessage(Payload),
    /// Attach the token to the message that was sent.
    AttachReaction(ReactionToken),
    /// The invocation has succeeded.
    Finish,
    /// The invocation has failed; hand the transport's error on as it is.
    Abort,
}

/// What an `Action` holds, as plain values.
pub ghost enum ActionModel {
    Continue,
    SendMessage(PayloadModel),
    AttachReaction(ReactionToken),
    Finish,
    Abort,
}

impl View for Action {
    type V = ActionModel;

    open spec fn view(&self) -> ActionModel {
        match self {
            Action::Continue => ActionModel::Continue,
            Action::SendMessage(payload) => ActionModel::SendMessage(payload@),
            Action::AttachReaction(token) => ActionModel::AttachReaction(*token),
            Action::Finish => ActionModel::Finish,
            Action::Abort => ActionModel::Abort,
        }
    }
}

/// The state of one invocation.
#[derive(Clone, Debug, PartialEq, Eq)]
pub enum Dispatcher {
    /// The command has been received.
    Idle { command: Command },
    /// Every field has its display value.
    FieldsResolved { resolved: ResolvedCommand },
    /// The payload is ready to be sent.
    PayloadBuilt { kind: PayloadKind, payload: Payload },
    /// The payload has been handed to the transport.
    Sent { kind: PayloadKind },
    /// The message exists; `attached` reactions are on it and the next one
    /// has been handed to the transport.
    ReactionsAttaching { kind: PayloadKind, attached: usize },
    /// The message exists and carries its whole reaction plan.
    Complete,
    /// The transport failed; what was sent and attached before stays.
    Failed,
}

/// What a `Dispatcher` holds, as plain values.
pub ghost enum DispatcherModel {
    Idle { command: CommandModel },
    FieldsResolved { resolved: ResolvedCommandModel },
    PayloadBuilt { kind: PayloadKind, payload: PayloadModel },
    Sent { kind: PayloadKind },
    ReactionsAttaching { kind: PayloadKind, attached: nat },
    Complete,
    Failed,
}

impl View for Dispatcher {
    type V = DispatcherModel;

    open spec fn view(&self) -> DispatcherModel {
        match self {
            Dispatcher::Idle { command } => DispatcherModel::Idle { command: command@ },
            Dispatcher::FieldsResolved { resolved } => DispatcherModel::FieldsResolved {
                resolved: resolved@,
            },
            Dispatcher::PayloadBuilt { kind, payload } => DispatcherModel::PayloadBuilt {
                kind: *kind,
                payload: payload@,
            },
            Dispatcher::Sent { kind } => DispatcherModel::Sent { kind: *kind },
            Dispatcher::ReactionsAttaching { kind, attached } => {
                DispatcherModel::ReactionsAttaching { kind: *kind, attached: *attached as nat }
            },
            Dispatcher::Complete => DispatcherModel::Complete,
            Dispatcher::Failed => DispatcherModel::Failed,
        }
    }
}

/// Where the machine stands once `attached` reactions of the plan are on the
/// message: it asks for the next token of the plan, or is complete when none
/// is left.
pub open spec fn attach_next(kind: PayloadKind, attached: nat) -> (DispatcherModel, ActionModel) {
    if attached < plan(kind).len() {
        (
            DispatcherModel::ReactionsAttaching { kind, attached },
            ActionModel::AttachReaction(plan(kind)[attached as int]),
        )
    } else {
        (DispatcherModel::Complete, ActionModel::Finish)
    }
}

/// The next state and the action to take, given the outcome of the action
/// before.
///
/// Before the payload is handed over no transport call is outstanding, so the
/// machine goes on whatever the outcome says. A transport failure after that
/// ends the invocation. The two final states stay as they are.
pub open spec fn step(state: DispatcherModel, outcome: Outcome) -> (DispatcherModel, ActionModel) {
    match state {
        DispatcherModel::Idle { command } => (
            DispatcherModel::FieldsResolved { resolved: command.resolve() },
            ActionModel::Continue,
        ),
        DispatcherModel::FieldsResolved { resolved } => (
            DispatcherModel::PayloadBuilt { kind: resolved.kind(), payload: resolved.payload() },
            ActionModel::Continue,
        ),
        DispatcherModel::PayloadBuilt { kind, payload } => (
            DispatcherModel::Sent { kind },
            ActionModel::SendMessage(payload),
        ),
        DispatcherModel::Sent { kind } => if outcome == Outcome::TransportFailure {
            (DispatcherModel::Failed, ActionModel::Abort)
        } else {
            attach_next(kind, 0)
        },
        DispatcherModel::ReactionsAttaching { kind, attached } => if outcome
            == Outcome::TransportFailure {
            (DispatcherModel::Failed, ActionModel::Abort)
        } else {
            attach_next(kind, attached + 1)
        },
        DispatcherModel::Complete => (DispatcherModel::Complete, ActionModel::Finish),
        DispatcherModel::Failed => (DispatcherModel::Failed, ActionModel::Abort),
    }
}

impl DispatcherModel {
    /// While reactions are being attached, the count of those already on the
    /// message is below the length of the plan.
    pub open spec fn wf(self) -> bool {
        self matches DispatcherModel::ReactionsAttaching { kind, attached } ==> attached < plan(
            kind,
        ).len()
    }

    /// The invocation is over.
    pub open spec fn is_final(self) -> bool {
        self is Complete || self is Failed
    }
}

impl Dispatcher {
    /// Takes one step: moves to the next state and names the action that the
    /// caller is to take before it steps again.
    pub fn step(self, outcome: Outcome) -> (result: (Dispatcher, Action))
        ensures
            (result.0@, result.1@) == step(self@, outcome),
    {
        match self {
            Dispatcher::Idle { command } => (
                Dispatcher::FieldsResolved { resolved: command.resolve() },
                Action::Continue,
            ),
            Dispatcher::FieldsResolved { resolved } => {
                let kind = resolved.kind();
                let payload = resolved.build();
                (Dispatcher::PayloadBuilt { kind, payload }, Action::Continue)
            },
            Dispatcher::PayloadBuilt { kind, payload } => (
                Dispatcher::Sent { kind },
                Action::SendMessage(payload),
            ),
            Dispatcher::Sent { kind } => match outcome {
                Outcome::TransportFailure => (Dispatcher::Failed, Action::Abort),
                Outcome::Done => {
                    let tokens = plan_for(kind);
                    (
                        Dispatcher::ReactionsAttaching { kind, attached: 0 },
                        Action::AttachReaction(tokens[0]),
                    )
                },
            },
            Dispatcher::ReactionsAttaching { kind, attached } => match outcome {
                Outcome::TransportFailure => (Dispatcher::Failed, Action::Abort),
                Outcome::Done => {
                    let tokens = plan_for(kind);
                    if attached < tokens.len() - 1 {
                        (
                            Dispatcher::ReactionsAttaching { kind, attached: attached + 1 },
                            Action::AttachReaction(tokens[attached + 1]),
                        )
                    } else {
                        (Dispatcher::Complete, Action::Finish)
                    }
                },
            },
            Dispatcher::Complete => (Dispatcher::Complete, Action::Finish),
            Dispatcher::Failed => (Dispatcher::Failed, Action::Abort),
        }
    }

    /// Whether the invocation is over.
    pub fn is_final(&self) -> (over: bool)
        ensures
            over == self@.is_final(),
    {
        match self {
            Dispatcher::Complete => true,
            Dispatcher::Failed => true,
            _ => false,
        }
    }
}

/// Receives a request to confirm an event.
pub fn confirm_event(
    event_type: Option<String>,
    day: Option<String>,
    time: Option<String>,
    opponent: Option<String>,
) -> (dispatcher: Dispatcher)
    ensures
        dispatcher@ == (DispatcherModel::Idle {
            command: CommandModel::Confirmation(
                RequestModel {
                    event_type: text_of(event_type),
                    day: text_of(day),
                    time: text_of(time),
                    opponent: text_of(opponent),
                },
            ),
        }),
{
    Dispatcher::Idle {
        command: Command::Confirmation(NotificationRequest { event_type, day, time, opponent }),
    }
}

/// Receives a request to announce an event. An announcement takes no time.
pub fn announce_event(
    event_type: Option<String>,
    day: Option<String>,
    opponent: Option<String>,
) -> (dispatcher: Dispatcher)
    ensures
        dispatcher@ == (DispatcherModel::Idle {
            command: CommandModel::Announcement(
                RequestModel {
                    event_type: text_of(event_type),
                    day: text_of(day),
                    time: None,
                    opponent: text_of(opponent),
                },
            ),
        }),
{
    Dispatcher::Idle {
        command: Command::Announcement(
            NotificationRequest { event_type, day, time: None, opponent },
        ),
    }
}

/// Receives a request to poll availability over the week that starts at
/// `anchor`, the caller's current local day.
pub fn poll_availability(anchor: Weekday) -> (dispatcher: Dispatcher)
    ensures
        dispatcher@ == (DispatcherModel::Idle { command: CommandModel::AvailabilityPoll(anchor) }),
{
    Dispatcher::Idle { command: Command::AvailabilityPoll(anchor) }
}

/// Receives a request to poll availability over the week that starts today,
/// by the machine's clock and time zone. Which day that is lies with the
/// clock; the poll is the one that `poll_availability` gives for it.
pub fn poll_availability_today() -> (dispatcher: Dispatcher)
    ensures
        dispatcher@ matches DispatcherModel::Idle { command: CommandModel::AvailabilityPoll(_) },
{
    poll_availability(local_weekday_now())
}

/// The state that is reached from `state` by `n` steps whose outcome is
/// `Done` every time.
pub open spec fn after_done(state: DispatcherModel, n: nat) -> DispatcherModel
    decreases n,
{
    if n == 0 {
        state
    } else {
        step(after_done(state, (n - 1) as nat), Outcome::Done).0
    }
}

/// The action that the `n`-th of those steps asks for, counted from 1.
pub open spec fn action_of_step(state: DispatcherModel, n: nat) -> ActionModel {
    step(after_done(state, (n - 1) as nat), Outcome::Done).1
}

/// How far an invocation has come: every step of an invocation that is not
/// over moves it further.
pub open spec fn progress(state: DispatcherModel) -> nat {
    match state {
        DispatcherModel::Idle { .. } => 0,
        DispatcherModel::FieldsResolved { .. } => 1,
        DispatcherModel::PayloadBuilt { .. } => 2,
        DispatcherModel::Sent { .. } => 3,
        DispatcherModel::ReactionsAttaching { attached, .. } => 4 + attached,
        DispatcherModel::Complete => 11,
        DispatcherModel::Failed => 11,
    }
}

/// A transport failure ends the invocation once the payload has been handed
/// over, and only then: before that the machine goes on as if nothing had
/// been reported. Nothing but a transport failure leads to `Failed`.
pub proof fn lemma_failure_aborts(state: DispatcherModel, outcome: Outcome)
    ensures
        state is Sent || state is ReactionsAttaching ==> step(state, Outcome::TransportFailure) == (
            DispatcherModel::Failed,
            ActionModel::Abort,
        ),
        state is Idle || state is FieldsResolved || state is PayloadBuilt ==> step(
            state,
            Outcome::TransportFailure,
        ) == step(state, Outcome::Done),
        step(state, outcome).0 is Failed ==> state is Failed || (outcome
            == Outcome::TransportFailure && (state is Sent || state is ReactionsAttaching)),
{
}

/// The two final states stay as they are, whatever is reported, and go on
/// giving the same verdict.
pub proof fn lemma_final_states_stay(state: DispatcherModel, outcome: Outcome)
    requires
        state.is_final(),
    ensures
        step(state, outcome).0 == state,
        state is Complete ==> step(state, outcome).1 == ActionModel::Finish,
        state is Failed ==> step(state, outcome).1 == ActionModel::Abort,
{
}

/// Every step keeps the count of attached reactions below the length of the
/// plan, and moves an invocation that is not over further on. So no state
/// comes twice, the payload is handed over once at most, and an invocation is
/// over after eleven steps at most.
pub proof fn lemma_step_advances(state: DispatcherModel, outcome: Outcome)
    requires
        state.wf(),
    ensures
        step(state, outcome).0.wf(),
        progress(state) <= 11,
        !state.is_final() ==> progress(step(state, outcome).0) > progress(state),
        step(state, outcome).1 is SendMessage ==> state is PayloadBuilt,
        step(state, outcome).1 is Finish <==> step(state, outcome).0 is Complete,
        step(state, outcome).1 is Abort <==> step(state, outcome).0 is Failed,
{
}

/// The first three steps of an invocation resolve the fields, build the
/// payload and hand it over.
proof fn lemma_first_steps(command: CommandModel)
    ensures
        after_done(DispatcherModel::Idle { command }, 0) == (DispatcherModel::Idle { command }),
        after_done(DispatcherModel::Idle { command }, 1) == (DispatcherModel::FieldsResolved {
            resolved: command.resolve(),
        }),
        after_done(DispatcherModel::Idle { command }, 2) == (DispatcherModel::PayloadBuilt {
            kind: command.kind(),
            payload: command.payload(),
        }),
        after_done(DispatcherModel::Idle { command }, 3) == (DispatcherModel::Sent {
            kind: command.kind(),
        }),
{
    reveal_with_fuel(after_done, 4);
}

/// While nothing fails, reaction number `j` of the plan is asked for by step
/// number `4 + j`, and the machine then counts `j` reactions as attached.
proof fn lemma_attaching(command: CommandModel, j: nat)
    requires
        j < plan(command.kind()).len(),
    ensures
        after_done(DispatcherModel::Idle { command }, 4 + j) == (
        DispatcherModel::ReactionsAttaching { kind: command.kind(), attached: j }),
        action_of_step(DispatcherModel::Idle { command }, 4 + j) == ActionModel::AttachReaction(
            plan(command.kind())[j as int],
        ),
    decreases j,
{
    let start = DispatcherModel::Idle { command };
    if j == 0 {
        lemma_first_steps(command);
    } else {
        lemma_attaching(command, (j - 1) as nat);
    }
    assert(after_done(start, 4 + j) == step(after_done(start, (4 + j - 1) as nat), Outcome::Done).0);
}

/// The course of an invocation in which nothing fails. The first two steps
/// ask for nothing, the third asks to send the payload of the command, the
/// steps after it ask for the tokens of the reaction plan, one per step and
/// in the order of the plan, and the step after the last token finishes the
/// invocation.
pub proof fn lemma_undisturbed_run(command: CommandModel)
    ensures
        ({
            let start = DispatcherModel::Idle { command };
            let tokens = plan(command.kind());
            &&& action_of_step(start, 1) == ActionModel::Continue
            &&& action_of_step(start, 2) == ActionModel::Continue
            &&& action_of_step(start, 3) == ActionModel::SendMessage(command.payload())
            &&& forall|j: nat|
                j < tokens.len() ==> #[trigger] action_of_step(start, 4 + j)
                    == ActionModel::AttachReaction(tokens[j as int])
            &&& action_of_step(start, 4 + tokens.len()) == ActionModel::Finish
            &&& after_done(start, 4 + tokens.len()) == DispatcherModel::Complete
        }),
{
    let start = DispatcherModel::Idle { command };
    let tokens = plan(command.kind());
    lemma_first_steps(command);
    assert forall|j: nat| j < tokens.len() implies #[trigger] action_of_step(start, 4 + j)
        == ActionModel::AttachReaction(tokens[j as int]) by {
        lemma_attaching(command, j);
    }
    let last = (tokens.len() - 1) as nat;
    lemma_attaching(command, last);
    assert(after_done(start, 4 + tokens.len()) == step(
        after_done(start, 4 + last),
        Outcome::Done,
    ).0);
}

/// A failure while reaction number `j` is being attached ends the invocation
/// at once: the reactions before it stay, and no later one is asked for.
pub proof fn lemma_failed_reaction_aborts(command: CommandModel, j: nat, outcome: Outcome)
    requires
        j < plan(command.kind()).len(),
    ensures
        ({
            let reached = after_done(DispatcherModel::Idle { command }, 4 + j);
            let failed = step(reached, Outcome::TransportFailure);
            &&& failed == (DispatcherModel::Failed, ActionModel::Abort)
            &&& step(failed.0, outcome) == failed
        }),
{
    lemma_attaching(command, j);
}

} // verus!
