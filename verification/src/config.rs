//! The tunable parameters of the game and the helpers that read them.

use core::ops::RangeInclusive;
use vstd::prelude::*;
use crate::random::os_gen_range_inclusive;
use crate::text::{first_occurrence, i32_from_text, parse_i32, split_once_str, trimmed};

verus! {

/// The inclusive range that the text of a setting names: either a single
/// number (`"20"`) or two bounds around `..` (`"10..20"`), each of them
/// trimmed; the numbers must not be negative, and the bounds must not be
/// reversed.
pub open spec fn range_setting(raw: Seq<char>) -> Option<(i32, i32)> {
    match first_occurrence(raw, seq!['.', '.']) {
        Some(i) => match (
            i32_from_text(trimmed(raw.take(i))),
            i32_from_text(trimmed(raw.skip(i + 2))),
        ) {
            (Some(from), Some(to)) => if from <= to && from >= 0 {
                Some((from, to))
            } else {
                None
            },
            _ => None,
        },
        None => match i32_from_text(trimmed(raw)) {
            Some(v) => if v >= 0 {
                Some((v, v))
            } else {
                None
            },
            None => None,
        },
    }
}

/// Reads the inclusive range that the text of a setting names, or nothing
/// where the text is not a valid range.
pub fn parse_range(raw: &str) -> (res: Option<RangeInclusive<i32>>)
    ensures
        res is Some <==> range_setting(raw@) is Some,
        res matches Some(r) ==> {
            &&& !r@.exhausted
            &&& range_setting(raw@) == Some((r@.start, r@.end))
        },
{
    proof {
        reveal_strlit("..");
        assert(".."@ =~= seq!['.', '.']);
    }
    match split_once_str(raw, "..") {
        Some((from, to)) => {
            let from = parse_i32(from.trim());
            let to = parse_i32(to.trim());
            match (from, to) {
                (Some(from), Some(to)) => {
                    if from <= to && from >= 0 {
                        Some(RangeInclusive::new(from, to))
                    } else {
                        None
                    }
                },
                _ => None,
            }
        },
        None => match parse_i32(raw.trim()) {
            Some(v) => {
                if v >= 0 {
                    Some(RangeInclusive::new(v, v))
                } else {
                    None
                }
            },
            None => None,
        },
    }
}

/// A range that a setting names can always be drawn from, and starts at
/// zero or above.
pub proof fn lemma_setting_range_drawable(raw: Seq<char>)
    ensures
        range_setting(raw) matches Some(r) ==> 0 <= r.0 <= r.1,
{
}

/// The range that applies for a setting: the one its text names, or the
/// default where the setting is missing or invalid; the flag tells that the
/// default was taken. A drawable default with a start of zero or above
/// makes the result so too.
pub fn range_setting_or(raw: Option<&str>, default: RangeInclusive<i32>) -> (res: (
    RangeInclusive<i32>,
    bool,
))
    ensures
        res.1 == (raw matches Some(text) ==> range_setting(text@) is None),
        res.1 ==> res.0 == default,
        !res.1 ==> (raw matches Some(text) && !res.0@.exhausted && range_setting(text@) == Some(
            (res.0@.start, res.0@.end),
        )),
        valid_range(default) && 0 <= default@.start ==> valid_range(res.0) && 0 <= res.0@.start,
{
    match raw {
        None => (default, true),
        Some(text) => match parse_range(text) {
            Some(range) => {
                proof {
                    lemma_setting_range_drawable(text@);
                }
                (range, false)
            },
            None => (default, true),
        },
    }
}

/// An inclusive range that can be drawn from: built by `RangeInclusive::new`
/// and not reversed.
pub open spec fn valid_range(r: RangeInclusive<i32>) -> bool {
    !r@.exhausted && r@.start <= r@.end
}

/// The parameters of the enchanting mini-game (all but the difficulty of the
/// enchanting, a floating-point factor that the caller keeps).
pub struct EnchConfig {
    /// How many attempts a player gets each day.
    pub attempts_per_day: RangeInclusive<i32>,
    /// The level up to which an enchantment always succeeds.
    pub safe_level: i32,
    /// The lowest chance, in percents, above the safe level.
    pub chance_min: u32,
    /// The highest chance, in percents, above the safe level.
    pub chance_max: u32,
    /// How many bless charges the Bless of Day grants.
    pub bless_amount: RangeInclusive<i32>,
    /// The length above which a dick attracts the gnomes.
    pub gnomes_min_length: i32,
    /// How much the gnomes steal.
    pub gnomes_steal: RangeInclusive<i32>,
    /// The hour (UTC) of the daily gnome raid.
    pub gnomes_raid_hour_utc: u32,
    /// The locale of the gnome announcements.
    pub gnomes_locale: String,
}

impl EnchConfig {
    /// The ranges of the configuration can all be drawn from.
    pub open spec fn wf(&self) -> bool {
        &&& valid_range(self.attempts_per_day)
        &&& valid_range(self.bless_amount)
        &&& valid_range(self.gnomes_steal)
    }
}

impl Default for EnchConfig {
    /// The values that apply where no setting overrides them.
    fn default() -> (res: EnchConfig)
        ensures
            res.wf(),
            res.attempts_per_day@.start == 20 && res.attempts_per_day@.end == 20,
            res.safe_level == 3,
            res.chance_min == 5,
            res.chance_max == 100,
            res.bless_amount@.start == 1 && res.bless_amount@.end == 3,
            res.gnomes_min_length == 20,
            res.gnomes_steal@.start == 1 && res.gnomes_steal@.end == 10,
            res.gnomes_raid_hour_utc == 6,
            res.gnomes_locale@ == "ru"@,
    {
        EnchConfig {
            attempts_per_day: RangeInclusive::new(20, 20),
            safe_level: 3,
            chance_min: 5,
            chance_max: 100,
            bless_amount: RangeInclusive::new(1, 3),
            gnomes_min_length: 20,
            gnomes_steal: RangeInclusive::new(1, 10),
            gnomes_raid_hour_utc: 6,
            gnomes_locale: "ru".to_owned(),
        }
    }
}

/// Draws a value from an inclusive range; a range of a single value is
/// returned as is, without asking the generator.
pub fn roll_range(range: &RangeInclusive<i32>) -> (res: i32)
    requires
        valid_range(*range),
    ensures
        range@.start <= res <= range@.end,
        range@.start == range@.end ==> res == range@.start,
{
    if *range.start() == *range.end() {
        *range.start()
    } else {
        os_gen_range_inclusive(range)
    }
}

} // verus!
