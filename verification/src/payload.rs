//! The three message payloads and the fixed parts that they share.

use vstd::prelude::*;
use vstd::string::*;

use crate::fields::resolved;
use crate::fields::Field;
use crate::fields::RequestModel;
use crate::fields::ResolvedFields;
use crate::fields::ResolvedModel;
use crate::reaction::plan;
use crate::reaction::plan_for;
use crate::reaction::PayloadKind;
use crate::reaction::ReactionToken;
use crate::text::contains;
use crate::text::lemma_middle_occurs;
use crate::text::occurs_at;
use crate::weekday::rotate;
use crate::weekday::rotation;
use crate::weekday::Weekday;

verus! {

/// Name under which every message is posted.
pub const AUTHOR_NAME: &'static str = "The 7th Reason";

/// Picture shown beside the author's name.
pub const AUTHOR_ICON_URL: &'static str = "https://i.imgur.com/J6t2fBE.png";

/// Page that the author's name links to.
pub const AUTHOR_URL: &'static str = "https://github.com/AuroraEchoes/The7thReason";

/// Mention of the role that every message notifies, as the last line shows it.
pub const ROLE_MENTION: &'static str = "[ <@&1244624494731984906> ]";

/// Red part of the colour of every message.
pub const COLOR_RED: u8 = 230;

/// Green part of the colour of every message.
pub const COLOR_GREEN: u8 = 29;

/// Blue part of the colour of every message.
pub const COLOR_BLUE: u8 = 213;

/// A colour as its red, green and blue parts.
#[derive(Clone, Copy, Debug, PartialEq, Eq, Hash, Structural)]
pub struct Color {
    pub red: u8,
    pub green: u8,
    pub blue: u8,
}

/// Who a message is shown to come from.
#[derive(Clone, Debug, PartialEq, Eq)]
pub struct Author {
    pub name: String,
    pub icon_url: String,
    pub url: String,
}

/// What an `Author` holds, as plain sequences of characters.
pub ghost struct AuthorModel {
    pub name: Seq<char>,
    pub icon_url: Seq<char>,
    pub url: Seq<char>,
}

impl View for Author {
    type V = AuthorModel;

    open spec fn view(&self) -> AuthorModel {
        AuthorModel { name: self.name@, icon_url: self.icon_url@, url: self.url@ }
    }
}

/// The structured message that is sent to a channel.
#[derive(Clone, Debug, PartialEq, Eq)]
pub struct Payload {
    pub title: String,
    pub description: String,
    pub color: Color,
    pub author: Author,
}

/// What a `Payload` holds, as plain values.
pub ghost struct PayloadModel {
    pub title: Seq<char>,
    pub description: Seq<char>,
    pub color: Color,
    pub author: AuthorModel,
}

impl View for Payload {
    type V = PayloadModel;

    open spec fn view(&self) -> PayloadModel {
        PayloadModel {
            title: self.title@,
            description: self.description@,
            color: self.color,
            author: self.author@,
        }
    }
}

/// The colour of every message.
pub open spec fn fixed_color() -> Color {
    Color { red: COLOR_RED, green: COLOR_GREEN, blue: COLOR_BLUE }
}

/// The author block of every message.
pub open spec fn fixed_author() -> AuthorModel {
    AuthorModel { name: AUTHOR_NAME@, icon_url: AUTHOR_ICON_URL@, url: AUTHOR_URL@ }
}

/// A payload with the given title and body and the fixed colour and author.
pub open spec fn framed(title: Seq<char>, description: Seq<char>) -> PayloadModel {
    PayloadModel { title, description, color: fixed_color(), author: fixed_author() }
}

/// Text before the day in the body of a confirmation or an announcement.
pub open spec fn day_lead() -> Seq<char> {
    ":calendar: **Day**: "@
}

/// Text between the day and the time in the body of a confirmation.
pub open spec fn time_lead() -> Seq<char> {
    "\n\n:alarm_clock: **Time**: "@
}

/// Text before the opponent in the body of a confirmation or an announcement.
pub open spec fn who_lead() -> Seq<char> {
    "\n\n:busts_in_silhouette: **Who**: "@
}

/// Title of a confirmation.
pub open spec fn confirmation_title(event_type: Seq<char>) -> Seq<char> {
    "**"@ + event_type + " Confirmation**"@
}

/// Body of a confirmation: the day, the time and the opponent, each on a line
/// of its own, then the instruction and the role mention.
pub open spec fn confirmation_body(day: Seq<char>, time: Seq<char>, opponent: Seq<char>) -> Seq<
    char,
> {
    day_lead() + day + time_lead() + time + who_lead() + opponent
        + "\n\n*React with :white_check_mark: if you can make it*\n\n"@ + ROLE_MENTION@
}

/// The confirmation that shows the given display values.
pub open spec fn confirmation(fields: ResolvedModel) -> PayloadModel {
    framed(
        confirmation_title(fields.event_type),
        confirmation_body(fields.day, fields.time, fields.opponent),
    )
}

/// Title of an announcement, in the spelling that deployed clients show.
pub open spec fn announcement_title(event_type: Seq<char>) -> Seq<char> {
    "**"@ + event_type + " Announcment**"@
}

/// Body of an announcement: the day and the opponent, each on a line of its
/// own, then the instruction and the role mention.
pub open spec fn announcement_body(day: Seq<char>, opponent: Seq<char>) -> Seq<char> {
    day_lead() + day + who_lead() + opponent + "\n\n*React below with time availability*\n\n"@
        + ROLE_MENTION@
}

/// The announcement that shows the given display values.
pub open spec fn announcement(fields: ResolvedModel) -> PayloadModel {
    framed(announcement_title(fields.event_type), announcement_body(fields.day, fields.opponent))
}

/// Title of an availability poll.
pub open spec fn poll_title() -> Seq<char> {
    "**Availability Poll**"@
}

/// Instructions at the head of an availability poll.
pub open spec fn poll_preamble() -> Seq<char> {
    "*Polling availability for the next week.*\nReact with **all** of the days during which you are availabile **for at least an hour** at some point between 6pm – 10pm.\n\n"@
}

/// Line `i` of an availability poll: the token at position `i` of the poll's
/// reaction plan, an arrow, and the label of the day at position `i` of the
/// week that starts at `anchor`.
pub open spec fn poll_line(anchor: Weekday, i: int) -> Seq<char> {
    plan(PayloadKind::AvailabilityPoll)[i].glyph_text() + " → "@ + rotation(
        anchor,
    )[i].label_text() + "\n\n"@
}

/// The first `n` lines of an availability poll, one after the other.
pub open spec fn poll_lines(anchor: Weekday, n: nat) -> Seq<char>
    decreases n,
{
    if n == 0 {
        Seq::empty()
    } else {
        poll_lines(anchor, (n - 1) as nat) + poll_line(anchor, n - 1)
    }
}

/// Body of an availability poll: the instructions, one line for each of the
/// seven days from the anchor on, and the role mention.
pub open spec fn poll_body(anchor: Weekday) -> Seq<char> {
    poll_preamble() + poll_lines(anchor, 7) + "\n"@ + ROLE_MENTION@
}

/// The availability poll for the week that starts at `anchor`.
pub open spec fn availability_poll(anchor: Weekday) -> PayloadModel {
    framed(poll_title(), poll_body(anchor))
}

/// Puts a title and a body into a payload with the fixed colour and author.
fn frame(title: String, description: String) -> (payload: Payload)
    ensures
        payload@ == framed(title@, description@),
{
    Payload {
        title,
        description,
        color: Color { red: COLOR_RED, green: COLOR_GREEN, blue: COLOR_BLUE },
        author: Author {
            name: String::from_str(AUTHOR_NAME),
            icon_url: String::from_str(AUTHOR_ICON_URL),
            url: String::from_str(AUTHOR_URL),
        },
    }
}

/// Builds the confirmation of an event from the display values of its fields.
pub fn build_confirmation(fields: &ResolvedFields) -> (payload: Payload)
    ensures
        payload@ == confirmation(fields@),
{
    let mut title = String::from_str("**");
    title.append(fields.event_type.as_str());
    title.append(" Confirmation**");
    let mut body = String::from_str(":calendar: **Day**: ");
    body.append(fields.day.as_str());
    body.append("\n\n:alarm_clock: **Time**: ");
    body.append(fields.time.as_str());
    body.append("\n\n:busts_in_silhouette: **Who**: ");
    body.append(fields.opponent.as_str());
    body.append("\n\n*React with :white_check_mark: if you can make it*\n\n");
    body.append(ROLE_MENTION);
    frame(title, body)
}

/// Builds the announcement of an event from the display values of its fields.
/// The time is not shown.
pub fn build_announcement(fields: &ResolvedFields) -> (payload: Payload)
    ensures
        payload@ == announcement(fields@),
{
    let mut title = String::from_str("**");
    title.append(fields.event_type.as_str());
    title.append(" Announcment**");
    let mut body = String::from_str(":calendar: **Day**: ");
    body.append(fields.day.as_str());
    body.append("\n\n:busts_in_silhouette: **Who**: ");
    body.append(fields.opponent.as_str());
    body.append("\n\n*React below with time availability*\n\n");
    body.append(ROLE_MENTION);
    frame(title, body)
}

/// Builds the availability poll for the week that starts at `anchor`.
pub fn build_availability_poll(anchor: Weekday) -> (payload: Payload)
    ensures
        payload@ == availability_poll(anchor),
{
    let tokens = plan_for(PayloadKind::AvailabilityPoll);
    let days = rotate(anchor).to_vec();
    let mut lines = String::new();
    let mut i: usize = 0;
    while i < 7
        invariant
            i <= 7,
            tokens@ == plan(PayloadKind::AvailabilityPoll),
            days@ == rotation(anchor),
            lines@ == poll_lines(anchor, i as nat),
        decreases 7 - i,
    {
        let mut line = tokens[i].glyph();
        line.append(" → ");
        line.append(days[i].label().as_str());
        line.append("\n\n");
        lines.append(line.as_str());
        i += 1;
    }
    let mut body = String::from_str(
        "*Polling availability for the next week.*\nReact with **all** of the days during which you are availabile **for at least an hour** at some point between 6pm – 10pm.\n\n",
    );
    body.append(lines.as_str());
    body.append("\n");
    body.append(ROLE_MENTION);
    frame(String::from_str("**Availability Poll**"), body)
}

/// The part of a payload in which a field is shown: the title for the event
/// type, the body for the day, the time and the opponent.
pub open spec fn place_of(payload: PayloadModel, field: Field) -> Seq<char> {
    if field == Field::EventType {
        payload.title
    } else {
        payload.description
    }
}

/// Position of a field's display value in the part of a confirmation that
/// shows it.
pub open spec fn confirmation_offset(fields: ResolvedModel, field: Field) -> nat {
    match field {
        Field::EventType => "**"@.len(),
        Field::Day => day_lead().len(),
        Field::Time => day_lead().len() + fields.day.len() + time_lead().len(),
        Field::Opponent => day_lead().len() + fields.day.len() + time_lead().len()
            + fields.time.len() + who_lead().len(),
    }
}

/// Position of a field's display value in the part of an announcement that
/// shows it. An announcement does not show the time.
pub open spec fn announcement_offset(fields: ResolvedModel, field: Field) -> nat {
    match field {
        Field::EventType => "**"@.len(),
        Field::Day => day_lead().len(),
        Field::Time => 0,
        Field::Opponent => day_lead().len() + fields.day.len() + who_lead().len(),
    }
}

/// A confirmation shows every field of the request: the event type in the
/// title, the others in the body. A field that is absent is shown as its
/// placeholder, one that is present as the supplied value, character for
/// character, and each stands at its fixed place after the text before it.
pub proof fn lemma_confirmation_shows_field(request: RequestModel, field: Field)
    ensures
        occurs_at(
            place_of(confirmation(request.resolve()), field),
            resolved(field, request.get(field)),
            confirmation_offset(request.resolve(), field) as int,
        ),
        request.get(field) is None ==> contains(
            place_of(confirmation(request.resolve()), field),
            field.placeholder_text(),
        ),
        request.get(field) matches Some(value) ==> contains(
            place_of(confirmation(request.resolve()), field),
            value,
        ),
{
    let fields = request.resolve();
    let tail = "\n\n*React with :white_check_mark: if you can make it*\n\n"@ + ROLE_MENTION@;
    match field {
        Field::EventType => {
            lemma_middle_occurs("**"@, fields.event_type, " Confirmation**"@);
        },
        Field::Day => {
            let after = time_lead() + fields.time + who_lead() + fields.opponent + tail;
            assert(confirmation_body(fields.day, fields.time, fields.opponent) =~= day_lead()
                + fields.day + after);
            lemma_middle_occurs(day_lead(), fields.day, after);
        },
        Field::Time => {
            let before = day_lead() + fields.day + time_lead();
            let after = who_lead() + fields.opponent + tail;
            assert(confirmation_body(fields.day, fields.time, fields.opponent) =~= before
                + fields.time + after);
            lemma_middle_occurs(before, fields.time, after);
        },
        Field::Opponent => {
            let before = day_lead() + fields.day + time_lead() + fields.time + who_lead();
            assert(confirmation_body(fields.day, fields.time, fields.opponent) =~= before
                + fields.opponent + tail);
            lemma_middle_occurs(before, fields.opponent, tail);
        },
    }
}

/// An announcement shows the event type in its title and the day and the
/// opponent in its body. A field that is absent is shown as its placeholder,
/// one that is present as the supplied value, character for character, and
/// each stands at its fixed place after the text before it.
pub proof fn lemma_announcement_shows_field(request: RequestModel, field: Field)
    requires
        field != Field::Time,
    ensures
        occurs_at(
            place_of(announcement(request.resolve()), field),
            resolved(field, request.get(field)),
            announcement_offset(request.resolve(), field) as int,
        ),
        request.get(field) is None ==> contains(
            place_of(announcement(request.resolve()), field),
            field.placeholder_text(),
        ),
        request.get(field) matches Some(value) ==> contains(
            place_of(announcement(request.resolve()), field),
            value,
        ),
{
    let fields = request.resolve();
    let tail = "\n\n*React below with time availability*\n\n"@ + ROLE_MENTION@;
    match field {
        Field::EventType => {
            lemma_middle_occurs("**"@, fields.event_type, " Announcment**"@);
        },
        Field::Day => {
            let after = who_lead() + fields.opponent + tail;
            assert(announcement_body(fields.day, fields.opponent) =~= day_lead() + fields.day
                + after);
            lemma_middle_occurs(day_lead(), fields.day, after);
        },
        Field::Time => {},
        Field::Opponent => {
            let before = day_lead() + fields.day + who_lead();
            assert(announcement_body(fields.day, fields.opponent) =~= before + fields.opponent
                + tail);
            lemma_middle_occurs(before, fields.opponent, tail);
        },
    }
}

/// Position of line `i` in the body of an availability poll.
pub open spec fn poll_line_offset(anchor: Weekday, i: nat) -> nat {
    poll_preamble().len() + poll_lines(anchor, i).len()
}

/// The first `m` lines of a poll are the start of its first `n` lines, for
/// `m` up to `n`.
proof fn lemma_poll_lines_prefix(anchor: Weekday, m: nat, n: nat)
    requires
        m <= n,
    ensures
        poll_lines(anchor, m).len() <= poll_lines(anchor, n).len(),
        poll_lines(anchor, n).subrange(0, poll_lines(anchor, m).len() as int) == poll_lines(
            anchor,
            m,
        ),
    decreases n,
{
    if m == n {
        assert(poll_lines(anchor, n).subrange(0, poll_lines(anchor, n).len() as int)
            =~= poll_lines(anchor, n));
    } else {
        lemma_poll_lines_prefix(anchor, m, (n - 1) as nat);
        let shorter = poll_lines(anchor, (n - 1) as nat);
        assert(poll_lines(anchor, n) == shorter + poll_line(anchor, n - 1));
        assert(poll_lines(anchor, n).subrange(0, poll_lines(anchor, m).len() as int)
            =~= shorter.subrange(0, poll_lines(anchor, m).len() as int));
    }
}

/// The body of an availability poll shows one line for each of the seven
/// days from the anchor on, in order. Line `i` pairs the token for the
/// ordinal `i + 1` with the label of the day `i` days after the anchor, and
/// stands right after the instructions and the lines before it.
pub proof fn lemma_poll_shows_line(anchor: Weekday, i: nat)
    requires
        i < 7,
    ensures
        poll_line(anchor, i as int) == ReactionToken::numbered(i as int + 1).glyph_text() + " → "@
            + anchor.advanced(i).label_text() + "\n\n"@,
        occurs_at(
            poll_body(anchor),
            poll_line(anchor, i as int),
            poll_line_offset(anchor, i) as int,
        ),
        contains(poll_body(anchor), poll_line(anchor, i as int)),
{
    let body = poll_body(anchor);
    let line = poll_line(anchor, i as int);
    let at = poll_line_offset(anchor, i) as int;
    let through = poll_lines(anchor, i + 1);
    lemma_poll_lines_prefix(anchor, i + 1, 7);
    assert(through == poll_lines(anchor, i) + line);
    assert forall|k: int| 0 <= k < line.len() implies body.subrange(
        at,
        at + line.len(),
    )[k] == line[k] by {
        let within = poll_lines(anchor, i).len() + k;
        assert(poll_lines(anchor, 7).subrange(0, through.len() as int)[within] == through[within]);
    }
    assert(body.subrange(at, at + line.len()) =~= line);
    assert(occurs_at(body, line, at));
}

} // verus!
