use chrono::Datelike;
use seventh_reason::command::Command;
use seventh_reason::dispatch::announce_event;
use seventh_reason::dispatch::confirm_event;
use seventh_reason::dispatch::poll_availability;
use seventh_reason::dispatch::poll_availability_today;
use seventh_reason::dispatch::Action;
use seventh_reason::dispatch::Dispatcher;
use seventh_reason::dispatch::Outcome;
use seventh_reason::reaction::plan_for;
use seventh_reason::reaction::PayloadKind;
use seventh_reason::reaction::ReactionToken;
use seventh_reason::weekday::Weekday;

/// What a transport that fails at a chosen call has seen of one invocation.
struct Record {
    messages: Vec<String>,
    reactions: Vec<String>,
    steps: usize,
    succeeded: bool,
    end: Dispatcher,
}

/// Drives an invocation to its end. The transport call number `fail_at`,
/// counted from 0 over the send and the reactions, fails.
fn drive(start: Dispatcher, fail_at: Option<usize>) -> Record {
    let mut record = Record {
        messages: Vec::new(),
        reactions: Vec::new(),
        steps: 0,
        succeeded: false,
        end: Dispatcher::Failed,
    };
    let mut machine = start;
    let mut outcome = Outcome::Done;
    let mut calls: usize = 0;
    loop {
        let (next, action) = machine.step(outcome);
        machine = next;
        record.steps += 1;
        assert!(record.steps <= 11);
        outcome = match action {
            Action::Continue => Outcome::Done,
            Action::SendMessage(payload) => {
                calls += 1;
                if fail_at == Some(calls - 1) {
                    Outcome::TransportFailure
                } else {
                    record.messages.push(payload.description);
                    Outcome::Done
                }
            }
            Action::AttachReaction(token) => {
                calls += 1;
                if fail_at == Some(calls - 1) {
                    Outcome::TransportFailure
                } else {
                    record.reactions.push(token.glyph());
                    Outcome::Done
                }
            }
            Action::Finish => {
                record.succeeded = true;
                break;
            }
            Action::Abort => break,
        };
    }
    record.end = machine;
    record
}

fn scrim() -> Dispatcher {
    confirm_event(
        Some("Scrim".to_string()),
        Some("Monday".to_string()),
        Some("8pm".to_string()),
        Some("Team X".to_string()),
    )
}

#[test]
fn confirmation_attaches_yes_then_no() {
    let record = drive(scrim(), None);
    assert!(record.succeeded);
    assert_eq!(record.end, Dispatcher::Complete);
    assert_eq!(record.messages.len(), 1);
    assert!(record.messages[0].contains(":calendar: **Day**: Monday"));
    assert!(record.messages[0].contains(":alarm_clock: **Time**: 8pm"));
    assert!(record.messages[0].contains(":busts_in_silhouette: **Who**: Team X"));
    assert_eq!(record.reactions, vec!["\u{2705}".to_string(), "\u{274c}".to_string()]);
    assert_eq!(record.steps, 6);
}

#[test]
fn announcement_attaches_six_to_ten_ascending() {
    let start = announce_event(Some("Scrim".to_string()), Some("Tuesday".to_string()), None);
    let record = drive(start, None);
    assert!(record.succeeded);
    assert_eq!(record.messages.len(), 1);
    assert!(record.messages[0].contains(":calendar: **Day**: Tuesday"));
    assert!(record.messages[0].contains(":busts_in_silhouette: **Who**: [Opponent not specified]"));
    assert_eq!(
        record.reactions,
        vec![
            "6\u{fe0f}\u{20e3}".to_string(),
            "7\u{fe0f}\u{20e3}".to_string(),
            "8\u{fe0f}\u{20e3}".to_string(),
            "9\u{fe0f}\u{20e3}".to_string(),
            "\u{1f51f}".to_string(),
        ]
    );
    assert_eq!(record.steps, 9);
}

#[test]
fn poll_attaches_one_to_seven_in_order() {
    let record = drive(poll_availability(Weekday::Wed), None);
    assert!(record.succeeded);
    assert_eq!(record.messages.len(), 1);
    let days = ["Wed", "Thu", "Fri", "Sat", "Sun", "Mon", "Tue"];
    assert_eq!(record.reactions.len(), 7);
    for i in 0..7usize {
        assert_eq!(record.reactions[i], format!("{}\u{fe0f}\u{20e3}", i + 1));
        let line = format!("{} \u{2192} {}\n\n", record.reactions[i], days[i]);
        assert!(record.messages[0].contains(&line));
    }
    assert_eq!(record.steps, 11);
}

#[test]
fn states_come_in_their_order() {
    let machine = scrim();
    assert!(matches!(machine, Dispatcher::Idle { .. }));
    let (machine, action) = machine.step(Outcome::Done);
    assert!(matches!(machine, Dispatcher::FieldsResolved { .. }));
    assert_eq!(action, Action::Continue);
    let (machine, action) = machine.step(Outcome::Done);
    assert!(matches!(machine, Dispatcher::PayloadBuilt { .. }));
    assert_eq!(action, Action::Continue);
    let (machine, action) = machine.step(Outcome::Done);
    assert_eq!(machine, Dispatcher::Sent { kind: PayloadKind::Confirmation });
    assert!(matches!(action, Action::SendMessage(_)));
    let (machine, action) = machine.step(Outcome::Done);
    assert_eq!(
        machine,
        Dispatcher::ReactionsAttaching { kind: PayloadKind::Confirmation, attached: 0 }
    );
    assert_eq!(action, Action::AttachReaction(ReactionToken::Affirmative));
    let (machine, action) = machine.step(Outcome::Done);
    assert_eq!(
        machine,
        Dispatcher::ReactionsAttaching { kind: PayloadKind::Confirmation, attached: 1 }
    );
    assert_eq!(action, Action::AttachReaction(ReactionToken::Negative));
    let (machine, action) = machine.step(Outcome::Done);
    assert_eq!(machine, Dispatcher::Complete);
    assert_eq!(action, Action::Finish);
}

#[test]
fn the_payload_sent_is_the_payload_of_the_command() {
    let machine = poll_availability(Weekday::Sun);
    let (machine, _) = machine.step(Outcome::Done);
    let (machine, _) = machine.step(Outcome::Done);
    let (_, action) = machine.step(Outcome::Done);
    assert_eq!(action, Action::SendMessage(Command::AvailabilityPoll(Weekday::Sun).build()));
}

#[test]
fn failed_send_creates_nothing() {
    let record = drive(scrim(), Some(0));
    assert!(!record.succeeded);
    assert_eq!(record.end, Dispatcher::Failed);
    assert!(record.messages.is_empty());
    assert!(record.reactions.is_empty());
}

#[test]
fn failed_reaction_leaves_the_earlier_ones() {
    let plan = plan_for(PayloadKind::AvailabilityPoll);
    for failing in 0..plan.len() {
        let record = drive(poll_availability(Weekday::Mon), Some(1 + failing));
        assert!(!record.succeeded);
        assert_eq!(record.end, Dispatcher::Failed);
        assert_eq!(record.messages.len(), 1);
        assert_eq!(record.reactions.len(), failing);
        for i in 0..failing {
            assert_eq!(record.reactions[i], plan[i].glyph());
        }
    }
}

#[test]
fn failure_is_not_heeded_before_the_payload_is_handed_over() {
    let machine = scrim();
    let (machine, action) = machine.step(Outcome::TransportFailure);
    assert!(matches!(machine, Dispatcher::FieldsResolved { .. }));
    assert_eq!(action, Action::Continue);
    let (machine, action) = machine.step(Outcome::TransportFailure);
    assert!(matches!(machine, Dispatcher::PayloadBuilt { .. }));
    assert_eq!(action, Action::Continue);
    let (machine, action) = machine.step(Outcome::TransportFailure);
    assert_eq!(machine, Dispatcher::Sent { kind: PayloadKind::Confirmation });
    assert!(matches!(action, Action::SendMessage(_)));
    let (machine, action) = machine.step(Outcome::TransportFailure);
    assert_eq!(machine, Dispatcher::Failed);
    assert_eq!(action, Action::Abort);
}

#[test]
fn final_states_stay() {
    for outcome in [Outcome::Done, Outcome::TransportFailure] {
        assert_eq!(Dispatcher::Complete.step(outcome), (Dispatcher::Complete, Action::Finish));
        assert_eq!(Dispatcher::Failed.step(outcome), (Dispatcher::Failed, Action::Abort));
    }
    assert!(Dispatcher::Complete.is_final());
    assert!(Dispatcher::Failed.is_final());
    assert!(!scrim().is_final());
    assert!(!Dispatcher::Sent { kind: PayloadKind::Announcement }.is_final());
}

#[test]
fn a_count_beyond_the_plan_completes() {
    let machine = Dispatcher::ReactionsAttaching { kind: PayloadKind::Confirmation, attached: 5 };
    assert_eq!(machine.step(Outcome::Done), (Dispatcher::Complete, Action::Finish));
    let machine =
        Dispatcher::ReactionsAttaching { kind: PayloadKind::Confirmation, attached: usize::MAX };
    assert_eq!(machine.step(Outcome::Done), (Dispatcher::Complete, Action::Finish));
}

#[test]
fn entry_points_hold_what_they_were_given() {
    let machine = announce_event(None, Some("Tuesday".to_string()), Some("Team X".to_string()));
    match machine {
        Dispatcher::Idle { command: Command::Announcement(request) } => {
            assert_eq!(request.event_type, None);
            assert_eq!(request.day, Some("Tuesday".to_string()));
            assert_eq!(request.time, None);
            assert_eq!(request.opponent, Some("Team X".to_string()));
        }
        other => panic!("unexpected state {:?}", other),
    }
    assert_eq!(
        poll_availability(Weekday::Thu),
        Dispatcher::Idle { command: Command::AvailabilityPoll(Weekday::Thu) }
    );
}

#[test]
fn driving_twice_gives_the_same_course() {
    let first = drive(poll_availability(Weekday::Fri), Some(3));
    let second = drive(poll_availability(Weekday::Fri), Some(3));
    assert_eq!(first.messages, second.messages);
    assert_eq!(first.reactions, second.reactions);
    assert_eq!(first.steps, second.steps);
}

#[test]
fn todays_poll_starts_at_the_local_day() {
    let before: u32 = chrono::offset::Local::now().date_naive().weekday().num_days_from_monday();
    let machine = poll_availability_today();
    let after: u32 = chrono::offset::Local::now().date_naive().weekday().num_days_from_monday();
    match machine {
        Dispatcher::Idle { command: Command::AvailabilityPoll(anchor) } => {
            let day: u32 = u32::from(anchor.num_days_from_monday());
            assert!(day == before || day == after);
        }
        other => panic!("unexpected state {:?}", other),
    }
}

#[test]
fn todays_poll_runs_like_any_poll() {
    let record = drive(poll_availability_today(), None);
    assert!(record.succeeded);
    assert_eq!(record.messages.len(), 1);
    assert_eq!(record.reactions.len(), 7);
}
