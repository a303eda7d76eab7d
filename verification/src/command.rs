//! The three commands and the payload that each one posts.

use vstd::prelude::*;

use crate::fields::NotificationRequest;
use crate::fields::RequestModel;
use crate::fields::ResolvedFields;
use crate::fields::ResolvedModel;
use crate::payload::announcement;
use crate::payload::availability_poll;
use crate::payload::build_announcement;
use crate::payload::build_availability_poll;
use crate::payload::build_confirmation;
use crate::payload::confirmation;
use crate::payload::Payload;
use crate::payload::PayloadModel;
use crate::reaction::PayloadKind;
use crate::weekday::Weekday;

verus! {

/// One invocation as it is received: the kind of message to post and the
/// details that were supplied with it.
#[derive(Clone, Debug, PartialEq, Eq)]
pub enum Command {
    /// Confirm an event; all four fields are shown.
    Confirmation(NotificationRequest),
    /// Announce an event; the time is not shown.
    Announcement(NotificationRequest),
    /// Ask for availability over the week that starts at the given day.
    AvailabilityPoll(Weekday),
}

/// What a `Command` holds, as plain values.
pub ghost enum CommandModel {
    Confirmation(RequestModel),
    Announcement(RequestModel),
    AvailabilityPoll(Weekday),
}

impl View for Command {
    type V = CommandModel;

    open spec fn view(&self) -> CommandModel {
        match self {
            Command::Confirmation(request) => CommandModel::Confirmation(request@),
            Command::Announcement(request) => CommandModel::Announcement(request@),
            Command::AvailabilityPoll(anchor) => CommandModel::AvailabilityPoll(*anchor),
        }
    }
}

/// One invocation with every field resolved to its display value.
#[derive(Clone, Debug, PartialEq, Eq)]
pub enum ResolvedCommand {
    Confirmation(ResolvedFields),
    Announcement(ResolvedFields),
    AvailabilityPoll(Weekday),
}

/// What a `ResolvedCommand` holds, as plain values.
pub ghost enum ResolvedCommandModel {
    Confirmation(ResolvedModel),
    Announcement(ResolvedModel),
    AvailabilityPoll(Weekday),
}

impl View for ResolvedCommand {
    type V = ResolvedCommandModel;

    open spec fn view(&self) -> ResolvedCommandModel {
        match self {
            ResolvedCommand::Confirmation(fields) => ResolvedCommandModel::Confirmation(fields@),
            ResolvedCommand::Announcement(fields) => ResolvedCommandModel::Announcement(fields@),
            ResolvedCommand::AvailabilityPoll(anchor) => ResolvedCommandModel::AvailabilityPoll(
                *anchor,
            ),
        }
    }
}

impl CommandModel {
    /// The kind of payload that the command posts.
    pub open spec fn kind(self) -> PayloadKind {
        match self {
            CommandModel::Confirmation(_) => PayloadKind::Confirmation,
            CommandModel::Announcement(_) => PayloadKind::Announcement,
            CommandModel::AvailabilityPoll(_) => PayloadKind::AvailabilityPoll,
        }
    }

    /// The command with every field resolved to its display value.
    pub open spec fn resolve(self) -> ResolvedCommandModel {
        match self {
            CommandModel::Confirmation(request) => ResolvedCommandModel::Confirmation(
                request.resolve(),
            ),
            CommandModel::Announcement(request) => ResolvedCommandModel::Announcement(
                request.resolve(),
            ),
            CommandModel::AvailabilityPoll(anchor) => ResolvedCommandModel::AvailabilityPoll(
                anchor,
            ),
        }
    }

    /// The payload that the command posts.
    pub open spec fn payload(self) -> PayloadModel {
        self.resolve().payload()
    }
}

impl ResolvedCommandModel {
    /// The kind of payload that the command posts.
    pub open spec fn kind(self) -> PayloadKind {
        match self {
            ResolvedCommandModel::Confirmation(_) => PayloadKind::Confirmation,
            ResolvedCommandModel::Announcement(_) => PayloadKind::Announcement,
            ResolvedCommandModel::AvailabilityPoll(_) => PayloadKind::AvailabilityPoll,
        }
    }

    /// The payload that the command posts.
    pub open spec fn payload(self) -> PayloadModel {
        match self {
            ResolvedCommandModel::Confirmation(fields) => confirmation(fields),
            ResolvedCommandModel::Announcement(fields) => announcement(fields),
            ResolvedCommandModel::AvailabilityPoll(anchor) => availability_poll(anchor),
        }
    }
}

impl Command {
    /// The kind of payload that the command posts.
    pub fn kind(&self) -> (kind: PayloadKind)
        ensures
            kind == self@.kind(),
    {
        match self {
            Command::Confirmation(_) => PayloadKind::Confirmation,
            Command::Announcement(_) => PayloadKind::Announcement,
            Command::AvailabilityPoll(_) => PayloadKind::AvailabilityPoll,
        }
    }

    /// Resolves every field of the command to its display value. The anchor
    /// of a poll is handed on as it is.
    pub fn resolve(self) -> (resolved: ResolvedCommand)
        ensures
            resolved@ == self@.resolve(),
    {
        match self {
            Command::Confirmation(request) => ResolvedCommand::Confirmation(request.resolve()),
            Command::Announcement(request) => ResolvedCommand::Announcement(request.resolve()),
            Command::AvailabilityPoll(anchor) => ResolvedCommand::AvailabilityPoll(anchor),
        }
    }

    /// Builds the payload that the command posts.
    pub fn build(self) -> (payload: Payload)
        ensures
            payload@ == self@.payload(),
    {
        self.resolve().build()
    }
}

impl ResolvedCommand {
    /// The kind of payload that the command posts.
    pub fn kind(&self) -> (kind: PayloadKind)
        ensures
            kind == self@.kind(),
    {
        match self {
            ResolvedCommand::Confirmation(_) => PayloadKind::Confirmation,
            ResolvedCommand::Announcement(_) => PayloadKind::Announcement,
            ResolvedCommand::AvailabilityPoll(_) => PayloadKind::AvailabilityPoll,
        }
    }

    /// Builds the payload that the command posts.
    pub fn build(&self) -> (payload: Payload)
        ensures
            payload@ == self@.payload(),
    {
        match self {
            ResolvedCommand::Confirmation(fields) => build_confirmation(fields),
            ResolvedCommand::Announcement(fields) => build_announcement(fields),
            ResolvedCommand::AvailabilityPoll(anchor) => build_availability_poll(*anchor),
        }
    }
}

/// Building is repeatable: two payloads built from commands that hold the
/// same values are the same in every part, and their texts are the same byte
/// for byte.
pub proof fn lemma_build_repeats(first: Payload, second: Payload, a: Command, b: Command)
    requires
        a@ == b@,
        first@ == a@.payload(),
        second@ == b@.payload(),
    ensures
        first@ == second@,
        vstd::utf8::encode_utf8(first.title@) == vstd::utf8::encode_utf8(second.title@),
        vstd::utf8::encode_utf8(first.description@) == vstd::utf8::encode_utf8(
            second.description@,
        ),
{
}

} // verus!
