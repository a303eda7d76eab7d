//! Reaction tokens and the fixed plan of tokens for each kind of payload.

use vstd::prelude::*;
use vstd::string::*;

verus! {

/// The three shapes of message that the bot posts.
#[derive(Clone, Copy, Debug, PartialEq, Eq, Hash, Structural)]
pub enum PayloadKind {
    Confirmation,
    Announcement,
    AvailabilityPoll,
}

/// A quick-response icon that is attached to a sent message.
#[derive(Clone, Copy, Debug, PartialEq, Eq, Hash, Structural)]
pub enum ReactionToken {
    Affirmative,
    Negative,
    One,
    Two,
    Three,
    Four,
    Five,
    Six,
    Seven,
    Eight,
    Nine,
    Ten,
}

impl ReactionToken {
    /// The ordinal that a numbered token stands for; 0 for the two tokens
    /// that carry no number.
    pub open spec fn ordinal(self) -> int {
        match self {
            ReactionToken::Affirmative => 0,
            ReactionToken::Negative => 0,
            ReactionToken::One => 1,
            ReactionToken::Two => 2,
            ReactionToken::Three => 3,
            ReactionToken::Four => 4,
            ReactionToken::Five => 5,
            ReactionToken::Six => 6,
            ReactionToken::Seven => 7,
            ReactionToken::Eight => 8,
            ReactionToken::Nine => 9,
            ReactionToken::Ten => 10,
        }
    }

    /// The token that stands for the ordinal `n`, for `n` from 1 to 10.
    pub open spec fn numbered(n: int) -> ReactionToken {
        if n == 1 {
            ReactionToken::One
        } else if n == 2 {
            ReactionToken::Two
        } else if n == 3 {
            ReactionToken::Three
        } else if n == 4 {
            ReactionToken::Four
        } else if n == 5 {
            ReactionToken::Five
        } else if n == 6 {
            ReactionToken::Six
        } else if n == 7 {
            ReactionToken::Seven
        } else if n == 8 {
            ReactionToken::Eight
        } else if n == 9 {
            ReactionToken::Nine
        } else {
            ReactionToken::Ten
        }
    }

    /// The characters of the icon as the chat platform receives them.
    pub open spec fn glyph_text(self) -> Seq<char> {
        match self {
            ReactionToken::Affirmative => "✅"@,
            ReactionToken::Negative => "❌"@,
            ReactionToken::One => "1️⃣"@,
            ReactionToken::Two => "2️⃣"@,
            ReactionToken::Three => "3️⃣"@,
            ReactionToken::Four => "4️⃣"@,
            ReactionToken::Five => "5️⃣"@,
            ReactionToken::Six => "6️⃣"@,
            ReactionToken::Seven => "7️⃣"@,
            ReactionToken::Eight => "8️⃣"@,
            ReactionToken::Nine => "9️⃣"@,
            ReactionToken::Ten => "🔟"@,
        }
    }

    /// The icon as text.
    pub fn glyph(self) -> (text: String)
        ensures
            text@ == self.glyph_text(),
    {
        String::from_str(self.glyph_str())
    }

    /// The icon as a string slice.
    pub fn glyph_str(self) -> (text: &'static str)
        ensures
            text@ == self.glyph_text(),
    {
        match self {
            ReactionToken::Affirmative => "✅",
            ReactionToken::Negative => "❌",
            ReactionToken::One => "1️⃣",
            ReactionToken::Two => "2️⃣",
            ReactionToken::Three => "3️⃣",
            ReactionToken::Four => "4️⃣",
            ReactionToken::Five => "5️⃣",
            ReactionToken::Six => "6️⃣",
            ReactionToken::Seven => "7️⃣",
            ReactionToken::Eight => "8️⃣",
            ReactionToken::Nine => "9️⃣",
            ReactionToken::Ten => "🔟",
        }
    }
}

/// The tokens attached to a payload of the given kind, in the order in which
/// they are attached.
pub open spec fn plan(kind: PayloadKind) -> Seq<ReactionToken> {
    match kind {
        PayloadKind::Confirmation => seq![ReactionToken::Affirmative, ReactionToken::Negative],
        PayloadKind::Announcement => Seq::new(5, |i: int| ReactionToken::numbered(6 + i)),
        PayloadKind::AvailabilityPoll => Seq::new(7, |i: int| ReactionToken::numbered(1 + i)),
    }
}

/// Looks up the reaction plan of a payload kind.
pub fn plan_for(kind: PayloadKind) -> (tokens: Vec<ReactionToken>)
    ensures
        tokens@ == plan(kind),
{
    let tokens = match kind {
        PayloadKind::Confirmation => vec![ReactionToken::Affirmative, ReactionToken::Negative],
        PayloadKind::Announcement => vec![
            ReactionToken::Six,
            ReactionToken::Seven,
            ReactionToken::Eight,
            ReactionToken::Nine,
            ReactionToken::Ten,
        ],
        PayloadKind::AvailabilityPoll => vec![
            ReactionToken::One,
            ReactionToken::Two,
            ReactionToken::Three,
            ReactionToken::Four,
            ReactionToken::Five,
            ReactionToken::Six,
            ReactionToken::Seven,
        ],
    };
    assert(tokens@ =~= plan(kind));
    tokens
}

/// Every plan has its fixed length: two tokens for a confirmation, five for an
/// announcement and seven for an availability poll.
pub proof fn lemma_plan_length(kind: PayloadKind)
    ensures
        kind == PayloadKind::Confirmation ==> plan(kind).len() == 2,
        kind == PayloadKind::Announcement ==> plan(kind).len() == 5,
        kind == PayloadKind::AvailabilityPoll ==> plan(kind).len() == 7,
{
}

/// The tokens of an announcement stand for the ordinals 6 to 10 and those of
/// an availability poll for the ordinals 1 to 7, each plan in ascending order;
/// the two tokens of a confirmation carry no number.
pub proof fn lemma_plan_ordinals(kind: PayloadKind, i: int)
    requires
        0 <= i < plan(kind).len(),
    ensures
        kind == PayloadKind::Confirmation ==> plan(kind)[i].ordinal() == 0,
        kind == PayloadKind::Announcement ==> plan(kind)[i].ordinal() == 6 + i,
        kind == PayloadKind::AvailabilityPoll ==> plan(kind)[i].ordinal() == 1 + i,
{
}

/// No token occurs twice in a plan.
pub proof fn lemma_plan_tokens_distinct(kind: PayloadKind, i: int, j: int)
    requires
        0 <= i < j < plan(kind).len(),
    ensures
        plan(kind)[i] != plan(kind)[j],
{
}

/// The first character of each token's icon.
proof fn lemma_glyph_first_char(token: ReactionToken)
    ensures
        token.glyph_text().len() > 0,
        token.glyph_text()[0] == match token {
            ReactionToken::Affirmative => '✅',
            ReactionToken::Negative => '❌',
            ReactionToken::One => '1',
            ReactionToken::Two => '2',
            ReactionToken::Three => '3',
            ReactionToken::Four => '4',
            ReactionToken::Five => '5',
            ReactionToken::Six => '6',
            ReactionToken::Seven => '7',
            ReactionToken::Eight => '8',
            ReactionToken::Nine => '9',
            ReactionToken::Ten => '🔟',
        },
{
    reveal_strlit("✅");
    reveal_strlit("❌");
    reveal_strlit("1️⃣");
    reveal_strlit("2️⃣");
    reveal_strlit("3️⃣");
    reveal_strlit("4️⃣");
    reveal_strlit("5️⃣");
    reveal_strlit("6️⃣");
    reveal_strlit("7️⃣");
    reveal_strlit("8️⃣");
    reveal_strlit("9️⃣");
    reveal_strlit("🔟");
}

/// Two tokens that show the same icon are the same token.
pub proof fn lemma_glyph_tells_token(a: ReactionToken, b: ReactionToken)
    requires
        a.glyph_text() == b.glyph_text(),
    ensures
        a == b,
{
    lemma_glyph_first_char(a);
    lemma_glyph_first_char(b);
}

} // verus!
