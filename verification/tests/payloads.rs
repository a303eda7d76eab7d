use seventh_reason::command::Command;
use seventh_reason::fields::NotificationRequest;
use seventh_reason::fields::ResolvedFields;
use seventh_reason::payload::build_announcement;
use seventh_reason::payload::build_availability_poll;
use seventh_reason::payload::build_confirmation;
use seventh_reason::payload::Color;
use seventh_reason::payload::Payload;
use seventh_reason::payload::ROLE_MENTION;
use seventh_reason::reaction::plan_for;
use seventh_reason::reaction::PayloadKind;
use seventh_reason::weekday::rotate;
use seventh_reason::weekday::Weekday;

fn text(value: &str) -> Option<String> {
    Some(value.to_string())
}

fn request(
    event_type: Option<&str>,
    day: Option<&str>,
    time: Option<&str>,
    opponent: Option<&str>,
) -> NotificationRequest {
    NotificationRequest {
        event_type: event_type.map(str::to_string),
        day: day.map(str::to_string),
        time: time.map(str::to_string),
        opponent: opponent.map(str::to_string),
    }
}

fn assert_fixed_frame(payload: &Payload) {
    assert_eq!(payload.color, Color { red: 230, green: 29, blue: 213 });
    assert_eq!(payload.author.name, "The 7th Reason");
    assert_eq!(payload.author.icon_url, "https://i.imgur.com/J6t2fBE.png");
    assert_eq!(payload.author.url, "https://github.com/AuroraEchoes/The7thReason");
}

#[test]
fn confirmation_with_all_fields() {
    let command = Command::Confirmation(request(
        Some("Scrim"),
        Some("Monday"),
        Some("8pm"),
        Some("Team X"),
    ));
    let payload = command.build();
    assert_eq!(payload.title, "**Scrim Confirmation**");
    assert_eq!(
        payload.description,
        ":calendar: **Day**: Monday\n\n:alarm_clock: **Time**: 8pm\n\n:busts_in_silhouette: **Who**: Team X\n\n*React with :white_check_mark: if you can make it*\n\n[ <@&1244624494731984906> ]"
    );
    assert_fixed_frame(&payload);
}

#[test]
fn confirmation_with_no_fields() {
    let payload = Command::Confirmation(request(None, None, None, None)).build();
    assert_eq!(payload.title, "**[Event type not specified] Confirmation**");
    assert_eq!(
        payload.description,
        ":calendar: **Day**: [Day not specified]\n\n:alarm_clock: **Time**: [Time not specified]\n\n:busts_in_silhouette: **Who**: [Opponent not specified]\n\n*React with :white_check_mark: if you can make it*\n\n[ <@&1244624494731984906> ]"
    );
    assert_fixed_frame(&payload);
}

#[test]
fn confirmation_lines_show_their_values() {
    let payload = Command::Confirmation(request(None, Some("Monday"), None, Some("Team X"))).build();
    let lines: Vec<&str> = payload.description.split("\n\n").collect();
    assert_eq!(lines.len(), 5);
    assert_eq!(lines[0], ":calendar: **Day**: Monday");
    assert_eq!(lines[1], ":alarm_clock: **Time**: [Time not specified]");
    assert_eq!(lines[2], ":busts_in_silhouette: **Who**: Team X");
    assert_eq!(lines[3], "*React with :white_check_mark: if you can make it*");
    assert_eq!(lines[4], ROLE_MENTION);
}

#[test]
fn announcement_without_opponent() {
    let payload = Command::Announcement(request(Some("Scrim"), Some("Tuesday"), None, None)).build();
    assert_eq!(payload.title, "**Scrim Announcment**");
    assert_eq!(
        payload.description,
        ":calendar: **Day**: Tuesday\n\n:busts_in_silhouette: **Who**: [Opponent not specified]\n\n*React below with time availability*\n\n[ <@&1244624494731984906> ]"
    );
    assert_fixed_frame(&payload);
}

#[test]
fn announcement_with_no_fields() {
    let payload = Command::Announcement(request(None, None, None, None)).build();
    assert_eq!(payload.title, "**[Event type not specified] Announcment**");
    assert_eq!(
        payload.description,
        ":calendar: **Day**: [Day not specified]\n\n:busts_in_silhouette: **Who**: [Opponent not specified]\n\n*React below with time availability*\n\n[ <@&1244624494731984906> ]"
    );
}

#[test]
fn announcement_does_not_show_the_time() {
    let with_time = Command::Announcement(request(Some("Scrim"), Some("Tuesday"), Some("8pm"), None));
    let without = Command::Announcement(request(Some("Scrim"), Some("Tuesday"), None, None));
    let payload = with_time.build();
    assert!(!payload.description.contains("8pm"));
    assert!(!payload.description.contains("Time"));
    assert_eq!(payload, without.build());
}

#[test]
fn announcement_title_keeps_its_spelling() {
    let payload = Command::Announcement(request(Some("Match"), None, None, None)).build();
    assert!(payload.title.ends_with(" Announcment**"));
    assert!(!payload.title.contains("Announcement"));
}

#[test]
fn poll_from_wednesday() {
    let payload = Command::AvailabilityPoll(Weekday::Wed).build();
    assert_eq!(payload.title, "**Availability Poll**");
    assert_eq!(
        payload.description,
        "*Polling availability for the next week.*\nReact with **all** of the days during which you are availabile **for at least an hour** at some point between 6pm \u{2013} 10pm.\n\n1\u{fe0f}\u{20e3} \u{2192} Wed\n\n2\u{fe0f}\u{20e3} \u{2192} Thu\n\n3\u{fe0f}\u{20e3} \u{2192} Fri\n\n4\u{fe0f}\u{20e3} \u{2192} Sat\n\n5\u{fe0f}\u{20e3} \u{2192} Sun\n\n6\u{fe0f}\u{20e3} \u{2192} Mon\n\n7\u{fe0f}\u{20e3} \u{2192} Tue\n\n\n[ <@&1244624494731984906> ]"
    );
    assert_fixed_frame(&payload);
}

#[test]
fn poll_from_monday() {
    let payload = build_availability_poll(Weekday::Mon);
    assert_eq!(
        payload.description,
        "*Polling availability for the next week.*\nReact with **all** of the days during which you are availabile **for at least an hour** at some point between 6pm \u{2013} 10pm.\n\n1\u{fe0f}\u{20e3} \u{2192} Mon\n\n2\u{fe0f}\u{20e3} \u{2192} Tue\n\n3\u{fe0f}\u{20e3} \u{2192} Wed\n\n4\u{fe0f}\u{20e3} \u{2192} Thu\n\n5\u{fe0f}\u{20e3} \u{2192} Fri\n\n6\u{fe0f}\u{20e3} \u{2192} Sat\n\n7\u{fe0f}\u{20e3} \u{2192} Sun\n\n\n[ <@&1244624494731984906> ]"
    );
}

#[test]
fn poll_lines_pair_tokens_with_days() {
    let anchors = [
        Weekday::Mon,
        Weekday::Tue,
        Weekday::Wed,
        Weekday::Thu,
        Weekday::Fri,
        Weekday::Sat,
        Weekday::Sun,
    ];
    for anchor in anchors {
        let payload = build_availability_poll(anchor);
        let tokens = plan_for(PayloadKind::AvailabilityPoll);
        let days = rotate(anchor).to_vec();
        let mut at: usize = payload.description.find("\n\n").unwrap() + 2;
        for i in 0..7usize {
            let line = format!("{} \u{2192} {}\n\n", tokens[i].glyph(), days[i].label());
            assert!(payload.description[at..].starts_with(&line));
            at += line.len();
        }
        assert_eq!(&payload.description[at..], "\n[ <@&1244624494731984906> ]");
    }
}

#[test]
fn builders_take_resolved_fields_as_they_are() {
    let fields = ResolvedFields {
        event_type: "Scrim".to_string(),
        day: "".to_string(),
        time: " 8pm ".to_string(),
        opponent: "**Team** X".to_string(),
    };
    let confirmation = build_confirmation(&fields);
    assert_eq!(confirmation.title, "**Scrim Confirmation**");
    assert_eq!(
        confirmation.description,
        ":calendar: **Day**: \n\n:alarm_clock: **Time**:  8pm \n\n:busts_in_silhouette: **Who**: **Team** X\n\n*React with :white_check_mark: if you can make it*\n\n[ <@&1244624494731984906> ]"
    );
    let announcement = build_announcement(&fields);
    assert_eq!(
        announcement.description,
        ":calendar: **Day**: \n\n:busts_in_silhouette: **Who**: **Team** X\n\n*React below with time availability*\n\n[ <@&1244624494731984906> ]"
    );
}

#[test]
fn empty_event_type_gives_a_bare_title() {
    let payload = Command::Confirmation(request(Some(""), None, None, None)).build();
    assert_eq!(payload.title, "** Confirmation**");
}

#[test]
fn building_twice_gives_identical_payloads() {
    let commands = [
        Command::Confirmation(request(Some("Scrim"), None, Some("8pm"), None)),
        Command::Announcement(request(None, Some("Tuesday"), None, Some("Team X"))),
        Command::AvailabilityPoll(Weekday::Sat),
    ];
    for command in commands {
        let first = command.clone().build();
        let second = command.build();
        assert_eq!(first, second);
        assert_eq!(first.title.as_bytes(), second.title.as_bytes());
        assert_eq!(first.description.as_bytes(), second.description.as_bytes());
    }
}

#[test]
fn command_kinds() {
    assert_eq!(
        Command::Confirmation(request(None, None, None, None)).kind(),
        PayloadKind::Confirmation
    );
    assert_eq!(
        Command::Announcement(request(None, None, None, None)).kind(),
        PayloadKind::Announcement
    );
    assert_eq!(Command::AvailabilityPoll(Weekday::Mon).kind(), PayloadKind::AvailabilityPoll);
}

#[test]
fn resolving_a_command_keeps_its_kind() {
    let command = Command::Announcement(NotificationRequest {
        event_type: text("Scrim"),
        day: None,
        time: None,
        opponent: None,
    });
    let resolved = command.resolve();
    assert_eq!(resolved.kind(), PayloadKind::Announcement);
    assert_eq!(resolved.build().title, "**Scrim Announcment**");
}
