//! Rounded-off timestamps and their wording in English.

use vstd::prelude::*;
use vstd::string::StringExecFns;
use crate::decimal::{decimal, integer_to_string};

verus! {

/// A unit of time.
#[derive(Copy, Clone, Debug, PartialEq, Eq, Structural)]
pub enum TimeUnit {
    Seconds,
    Minutes,
    Hours,
    Days,
    Months,
    Years,
}

/// `text` without the run of `c` at its end.
pub open spec fn without_trailing(text: Seq<char>, c: char) -> Seq<char>
    decreases text.len(),
{
    if text.len() > 0 && text.last() == c {
        without_trailing(text.drop_last(), c)
    } else {
        text
    }
}

/// Trusted: `str::trim_end_matches` of the standard library, given a
/// character as its pattern, returns the slice that is left when that
/// character has been removed from the end as often as it stands there.
#[verifier::external_body]
fn trim_end_matches(text: &'static str, c: char) -> (trimmed: &'static str)
    ensures
        trimmed@ == without_trailing(text@, c),
{
    text.trim_end_matches(c)
}

impl TimeUnit {
    /// The plural noun for this unit.
    pub open spec fn plural_name(self) -> Seq<char> {
        match self {
            TimeUnit::Seconds => "seconds"@,
            TimeUnit::Minutes => "minutes"@,
            TimeUnit::Hours => "hours"@,
            TimeUnit::Days => "days"@,
            TimeUnit::Months => "months"@,
            TimeUnit::Years => "years"@,
        }
    }

    /// The singular noun for this unit: the plural without the `s` at its end.
    pub open spec fn singular_name(self) -> Seq<char> {
        without_trailing(self.plural_name(), 's')
    }

    /// The singular nouns, written out.
    pub proof fn lemma_singular_names()
        ensures
            TimeUnit::Seconds.singular_name() == "second"@,
            TimeUnit::Minutes.singular_name() == "minute"@,
            TimeUnit::Hours.singular_name() == "hour"@,
            TimeUnit::Days.singular_name() == "day"@,
            TimeUnit::Months.singular_name() == "month"@,
            TimeUnit::Years.singular_name() == "year"@,
    {
        reveal_strlit("seconds");
        reveal_strlit("minutes");
        reveal_strlit("hours");
        reveal_strlit("days");
        reveal_strlit("months");
        reveal_strlit("years");
        reveal_strlit("second");
        reveal_strlit("minute");
        reveal_strlit("hour");
        reveal_strlit("day");
        reveal_strlit("month");
        reveal_strlit("year");
        reveal_with_fuel(without_trailing, 2);
        assert("seconds"@.drop_last() =~= "second"@);
        assert("minutes"@.drop_last() =~= "minute"@);
        assert("hours"@.drop_last() =~= "hour"@);
        assert("days"@.drop_last() =~= "day"@);
        assert("months"@.drop_last() =~= "month"@);
        assert("years"@.drop_last() =~= "year"@);
    }

    /// Returns the plural noun for this unit.
    pub fn plural(self) -> (name: &'static str)
        ensures
            name@ == self.plural_name(),
    {
        match self {
            TimeUnit::Seconds => "seconds",
            TimeUnit::Minutes => "minutes",
            TimeUnit::Hours => "hours",
            TimeUnit::Days => "days",
            TimeUnit::Months => "months",
            TimeUnit::Years => "years",
        }
    }

    /// Returns the singular noun for this unit.
    pub fn singular(self) -> (name: &'static str)
        ensures
            name@ == self.singular_name(),
    {
        trim_end_matches(self.plural(), 's')
    }
}

/// A timestamp that has been rounded off on purpose, so that it reads
/// "6 months ago" rather than as a date and a time of day.
#[derive(Copy, Clone, Debug, PartialEq, Eq, Structural)]
pub enum RoughTime {
    InThePast(TimeUnit, u32),
    JustNow,
    InTheFuture(TimeUnit, u32),
}

impl RoughTime {
    /// The wording of this timestamp: a count of one reads "a" before the
    /// singular noun, every other count is written in decimal before the
    /// plural noun.
    pub open spec fn english(self) -> Seq<char> {
        match self {
            RoughTime::InThePast(unit, count) => if count == 1 {
                "a "@ + unit.singular_name() + " ago"@
            } else {
                decimal(count as nat) + " "@ + unit.plural_name() + " ago"@
            },
            RoughTime::JustNow => "just now"@,
            RoughTime::InTheFuture(unit, count) => if count == 1 {
                "a "@ + unit.singular_name() + " from now"@
            } else {
                decimal(count as nat) + " "@ + unit.plural_name() + " from now"@
            },
        }
    }
}

/// A count with its noun: "a" and the singular for one, else the number and
/// the plural, each followed by a space.
fn counted(unit: TimeUnit, count: u32) -> (text: String)
    ensures
        count == 1 ==> text@ == "a "@ + unit.singular_name() + " "@,
        count != 1 ==> text@ == decimal(count as nat) + " "@ + unit.plural_name() + " "@,
{
    if count == 1 {
        let mut text = String::from_str("a ");
        text.append(unit.singular());
        text.append(" ");
        text
    } else {
        let mut text = integer_to_string(count as i64);
        text.append(" ");
        text.append(unit.plural());
        text.append(" ");
        text
    }
}

/// Puts a rough time into English words.
pub fn rough_time_to_english(rt: RoughTime) -> (text: String)
    ensures
        text@ == rt.english(),
{
    proof {
        reveal_strlit(" ");
        reveal_strlit("ago");
        reveal_strlit(" ago");
        reveal_strlit("from now");
        reveal_strlit(" from now");
    }
    match rt {
        RoughTime::InThePast(unit, count) => {
            let mut text = counted(unit, count);
            text.append("ago");
            assert(text@ =~= rt.english());
            text
        },
        RoughTime::JustNow => String::from_str("just now"),
        RoughTime::InTheFuture(unit, count) => {
            let mut text = counted(unit, count);
            text.append("from now");
            assert(text@ =~= rt.english());
            text
        },
    }
}

} // verus!
