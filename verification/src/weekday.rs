//! Days of the week and the rolling seven-day window of an availability poll.

use vstd::prelude::*;

verus! {

/// A day of the week, named as `chrono::Weekday` names it.
#[derive(Clone, Copy, Debug, PartialEq, Eq, Hash, Structural)]
pub enum Weekday {
    Mon,
    Tue,
    Wed,
    Thu,
    Fri,
    Sat,
    Sun,
}

impl Weekday {
    /// Number of days since Monday, from 0 for Monday to 6 for Sunday.
    pub open spec fn index(self) -> int {
        match self {
            Weekday::Mon => 0,
            Weekday::Tue => 1,
            Weekday::Wed => 2,
            Weekday::Thu => 3,
            Weekday::Fri => 4,
            Weekday::Sat => 5,
            Weekday::Sun => 6,
        }
    }

    /// The day that lies `n` days after Monday, counted round the week.
    pub open spec fn at(n: int) -> Weekday {
        let r = n % 7;
        if r == 0 {
            Weekday::Mon
        } else if r == 1 {
            Weekday::Tue
        } else if r == 2 {
            Weekday::Wed
        } else if r == 3 {
            Weekday::Thu
        } else if r == 4 {
            Weekday::Fri
        } else if r == 5 {
            Weekday::Sat
        } else {
            Weekday::Sun
        }
    }

    /// The day immediately after this one; Monday follows Sunday.
    pub open spec fn following(self) -> Weekday {
        match self {
            Weekday::Mon => Weekday::Tue,
            Weekday::Tue => Weekday::Wed,
            Weekday::Wed => Weekday::Thu,
            Weekday::Thu => Weekday::Fri,
            Weekday::Fri => Weekday::Sat,
            Weekday::Sat => Weekday::Sun,
            Weekday::Sun => Weekday::Mon,
        }
    }

    /// The day `n` days after this one.
    pub open spec fn advanced(self, n: nat) -> Weekday {
        Weekday::at(self.index() + n)
    }

    /// The three-letter English label of the day.
    pub open spec fn label_text(self) -> Seq<char> {
        match self {
            Weekday::Mon => "Mon"@,
            Weekday::Tue => "Tue"@,
            Weekday::Wed => "Wed"@,
            Weekday::Thu => "Thu"@,
            Weekday::Fri => "Fri"@,
            Weekday::Sat => "Sat"@,
            Weekday::Sun => "Sun"@,
        }
    }

    /// Number of days since Monday.
    pub fn num_days_from_monday(self) -> (n: u8)
        ensures
            n == self.index(),
    {
        match self {
            Weekday::Mon => 0,
            Weekday::Tue => 1,
            Weekday::Wed => 2,
            Weekday::Thu => 3,
            Weekday::Fri => 4,
            Weekday::Sat => 5,
            Weekday::Sun => 6,
        }
    }

    /// The day that lies `n` days after Monday, counted round the week.
    pub fn counted_from_monday(n: u32) -> (day: Weekday)
        ensures
            day == Weekday::at(n as int),
    {
        match n % 7 {
            0 => Weekday::Mon,
            1 => Weekday::Tue,
            2 => Weekday::Wed,
            3 => Weekday::Thu,
            4 => Weekday::Fri,
            5 => Weekday::Sat,
            _ => Weekday::Sun,
        }
    }

    /// The day that lies `n` days after Monday, for `n` below 7.
    pub fn from_days_from_monday(n: u32) -> (day: Option<Weekday>)
        ensures
            n < 7 ==> day == Some(Weekday::at(n as int)),
            n >= 7 ==> day.is_none(),
    {
        if n < 7 {
            Some(Weekday::counted_from_monday(n))
        } else {
            None
        }
    }

    /// The day immediately after this one, as `chrono` counts the week.
    pub fn succ(self) -> (next: Weekday)
        ensures
            next == self.following(),
    {
        Weekday::counted_from_monday(succ_days_from_monday(self))
    }

    /// The label under which the day is shown.
    pub fn label(self) -> (text: String)
        ensures
            text@ == self.label_text(),
    {
        display_label(self)
    }
}

/// Calls `chrono::Weekday::succ` on the day of the same name and reports the
/// result as `chrono::Weekday::num_days_from_monday` counts it. The contract
/// claims that `succ` moves one day forward in the week and wraps from Sunday
/// to Monday, and that the count runs from 0 for Monday to 6 for Sunday.
#[verifier::external_body]
fn succ_days_from_monday(day: Weekday) -> (n: u32)
    ensures
        n == (day.index() + 1) % 7,
{
    let outside = match day {
        Weekday::Mon => chrono::Weekday::Mon,
        Weekday::Tue => chrono::Weekday::Tue,
        Weekday::Wed => chrono::Weekday::Wed,
        Weekday::Thu => chrono::Weekday::Thu,
        Weekday::Fri => chrono::Weekday::Fri,
        Weekday::Sat => chrono::Weekday::Sat,
        Weekday::Sun => chrono::Weekday::Sun,
    };
    outside.succ().num_days_from_monday()
}

/// Reads the clock through `chrono::offset::Local::now` and takes the day of
/// the week of the local date. Any day may come back, so nothing is claimed
/// of the result.
#[verifier::external_body]
pub(crate) fn local_weekday_now() -> Weekday {
    match chrono::Datelike::weekday(&chrono::offset::Local::now().date_naive()) {
        chrono::Weekday::Mon => Weekday::Mon,
        chrono::Weekday::Tue => Weekday::Tue,
        chrono::Weekday::Wed => Weekday::Wed,
        chrono::Weekday::Thu => Weekday::Thu,
        chrono::Weekday::Fri => Weekday::Fri,
        chrono::Weekday::Sat => Weekday::Sat,
        chrono::Weekday::Sun => Weekday::Sun,
    }
}

/// Formats the day of the same name through `chrono::Weekday`'s `Display`.
/// The contract claims that it writes the three-letter English abbreviation
/// and nothing else.
#[verifier::external_body]
fn display_label(day: Weekday) -> (text: String)
    ensures
        text@ == day.label_text(),
{
    let outside = match day {
        Weekday::Mon => chrono::Weekday::Mon,
        Weekday::Tue => chrono::Weekday::Tue,
        Weekday::Wed => chrono::Weekday::Wed,
        Weekday::Thu => chrono::Weekday::Thu,
        Weekday::Fri => chrono::Weekday::Fri,
        Weekday::Sat => chrono::Weekday::Sat,
        Weekday::Sun => chrono::Weekday::Sun,
    };
    outside.to_string()
}

/// The seven days of the week that starts at `anchor`, one day per position.
pub open spec fn rotation(anchor: Weekday) -> Seq<Weekday> {
    Seq::new(7, |i: int| anchor.advanced(i as nat))
}

/// A rolling window of seven days, each the day after the one before it.
#[derive(Clone, Debug, PartialEq, Eq)]
pub struct WeekdaySequence {
    days: Vec<Weekday>,
}

impl View for WeekdaySequence {
    type V = Seq<Weekday>;

    closed spec fn view(&self) -> Seq<Weekday> {
        self.days@
    }
}

impl WeekdaySequence {
    /// The window holds seven days, and each but the first is the day after
    /// the one before it.
    pub open spec fn wf(self) -> bool {
        &&& self@.len() == 7
        &&& forall|i: int| 0 <= i < 6 ==> #[trigger] self@[i + 1] == self@[i].following()
    }

    /// The day at position `i`, where the window has one.
    pub fn get(&self, i: usize) -> (day: Option<Weekday>)
        ensures
            i < self@.len() ==> day == Some(self@[i as int]),
            i >= self@.len() ==> day.is_none(),
    {
        if i < self.days.len() {
            Some(self.days[i])
        } else {
            None
        }
    }

    /// The days of the window in order.
    pub fn to_vec(&self) -> (days: Vec<Weekday>)
        ensures
            days@ == self@,
    {
        let mut days: Vec<Weekday> = Vec::new();
        let mut i: usize = 0;
        while i < self.days.len()
            invariant
                i <= self.days.len(),
                days@ == self.days@.subrange(0, i as int),
            decreases self.days.len() - i,
        {
            days.push(self.days[i]);
            assert(days@ =~= self.days@.subrange(0, i + 1));
            i += 1;
        }
        assert(days@ =~= self.days@);
        days
    }
}

/// Computes the week that starts at `anchor`: the anchor first, then each day
/// that follows, wrapping from Sunday to Monday.
pub fn rotate(anchor: Weekday) -> (week: WeekdaySequence)
    ensures
        week@ == rotation(anchor),
        week@[0] == anchor,
        week.wf(),
{
    let mut days: Vec<Weekday> = Vec::new();
    let mut day = anchor;
    let mut i: usize = 0;
    while i < 7
        invariant
            i <= 7,
            days@.len() == i,
            day == anchor.advanced(i as nat),
            forall|k: int| 0 <= k < i ==> days@[k] == anchor.advanced(k as nat),
        decreases 7 - i,
    {
        days.push(day);
        proof {
            lemma_advanced_step(anchor, i as nat);
        }
        day = day.succ();
        i += 1;
    }
    let week = WeekdaySequence { days };
    proof {
        assert(week@ =~= rotation(anchor));
        lemma_rotation(anchor);
    }
    week
}

/// One more day forward is the day that follows.
pub proof fn lemma_advanced_step(day: Weekday, n: nat)
    ensures
        day.advanced(n + 1) == day.advanced(n).following(),
        day.advanced(0) == day,
{
}

/// Seven days forward is the same day of the week again.
pub proof fn lemma_advanced_week(day: Weekday, n: nat)
    ensures
        day.advanced(n + 7) == day.advanced(n),
{
}

/// The week that starts at an anchor always has seven days. It starts at the
/// anchor, every day in it is followed by the day after it, and the day after
/// the last is the anchor again.
pub proof fn lemma_rotation(anchor: Weekday)
    ensures
        rotation(anchor).len() == 7,
        rotation(anchor)[0] == anchor,
        forall|i: int|
            0 <= i < 6 ==> #[trigger] rotation(anchor)[i + 1] == rotation(anchor)[i].following(),
        rotation(anchor)[6].following() == rotation(anchor)[0],
{
    assert forall|i: int| 0 <= i < 6 implies #[trigger] rotation(anchor)[i + 1] == rotation(
        anchor,
    )[i].following() by {
        lemma_advanced_step(anchor, i as nat);
    }
    lemma_advanced_step(anchor, 6);
    lemma_advanced_week(anchor, 0);
}

/// No day occurs twice in the week that starts at an anchor.
pub proof fn lemma_rotation_distinct(anchor: Weekday, i: int, j: int)
    requires
        0 <= i < j < 7,
    ensures
        rotation(anchor)[i] != rotation(anchor)[j],
{
}

} // verus!
