//! The gnome raids: once a day, at the configured hour (UTC), the gnomes
//! rob one player per chat whose dick is longer than the threshold, picked
//! by a roulette weighted by the excess over the threshold.

use chrono::DateTime;
use vstd::prelude::*;
use crate::config::{EnchConfig, roll_range, valid_range};
use crate::random::os_gen_range_below;
use crate::repo::GnomeVictimCandidate;

verus! {

/// Seconds in a day of Unix time.
pub const SECONDS_PER_DAY: i64 = 86400;

/// The timestamps at or beyond this distance from the epoch (about 253,000
/// years) are out of the calendar's range.
pub const TIMESTAMP_LIMIT: i64 = 8_000_000_000_000;

/// The timestamp of the given hour (UTC) of the day of `now_secs`.
pub open spec fn spec_hour_of_day(now_secs: int, hour: int) -> int {
    now_secs - now_secs % 86400 + hour * 3600
}

/// `DateTime::date_naive` and `NaiveDate::and_hms_opt`: the given hour (UTC)
/// of the day of a Unix timestamp, as a Unix timestamp.
#[verifier::external_body]
fn hour_of_day(now_secs: i64, hour: u32) -> (res: i64)
    requires
        -TIMESTAMP_LIMIT <= now_secs <= TIMESTAMP_LIMIT,
        hour <= 23,
    ensures
        res == spec_hour_of_day(now_secs as int, hour as int),
{
    let now = DateTime::from_timestamp(now_secs, 0).unwrap();
    now.date_naive().and_hms_opt(hour, 0, 0).unwrap().and_utc().timestamp()
}

/// The raid hour that applies: hours past 23 mean 23.
pub open spec fn spec_raid_hour(hour: u32) -> int {
    if hour < 23 {
        hour as int
    } else {
        23
    }
}

/// When the gnome scheduler wakes up next.
#[derive(Debug, Clone, Copy, PartialEq, Eq, Structural)]
pub struct GnomeWake {
    /// The raid hour has passed today: raid now (chats raided today are
    /// left out by the query).
    pub raid_now: bool,
    /// The next raid, as a Unix timestamp.
    pub next_raid: i64,
    /// How long to sleep till the next raid: whole seconds...
    pub sleep_secs: u64,
    /// ...and nanoseconds.
    pub sleep_nanos: u32,
}

/// A timestamp at which the gnomes raid.
pub open spec fn is_raid_instant(t: int, hour: u32) -> bool {
    t % 86400 == spec_raid_hour(hour) * 3600
}

/// Plans the scheduler's next sleep at the moment `now_secs` seconds and
/// `now_nanos` nanoseconds after the epoch: today's raid time passed means
/// a raid now and a sleep till tomorrow's; otherwise a sleep till today's.
pub fn plan_gnome_wake(now_secs: i64, now_nanos: u32, raid_hour: u32) -> (res: GnomeWake)
    requires
        -TIMESTAMP_LIMIT <= now_secs <= TIMESTAMP_LIMIT,
        now_nanos < 1_000_000_000,
    ensures
        ({
            let today = spec_hour_of_day(now_secs as int, spec_raid_hour(raid_hour));
            &&& res.raid_now == (now_secs >= today)
            &&& res.next_raid == (if now_secs < today {
                today
            } else {
                today + 86400
            })
        }),
        res.sleep_secs * 1_000_000_000 + res.sleep_nanos == (res.next_raid - now_secs)
            * 1_000_000_000 - now_nanos,
        res.sleep_nanos < 1_000_000_000,
{
    let hour: u32 = if raid_hour < 23 {
        raid_hour
    } else {
        23
    };
    let today = hour_of_day(now_secs, hour);
    proof {
        assert(0 <= now_secs as int % 86400 < 86400);
    }
    let raid_now = now_secs >= today;
    let next_raid = if now_secs < today {
        today
    } else {
        today + SECONDS_PER_DAY
    };
    let whole = (next_raid - now_secs) as u64;
    if now_nanos == 0 {
        GnomeWake { raid_now, next_raid, sleep_secs: whole, sleep_nanos: 0 }
    } else {
        GnomeWake {
            raid_now,
            next_raid,
            sleep_secs: whole - 1,
            sleep_nanos: 1_000_000_000 - now_nanos,
        }
    }
}

/// The scheduler always sleeps (for at most a day), and wakes up at the
/// first raid time after the moment it plans at: no raid time is skipped.
pub proof fn lemma_wake_is_next_raid(now_secs: i64, now_nanos: u32, raid_hour: u32, wake: GnomeWake)
    requires
        -TIMESTAMP_LIMIT <= now_secs <= TIMESTAMP_LIMIT,
        now_nanos < 1_000_000_000,
        ({
            let today = spec_hour_of_day(now_secs as int, spec_raid_hour(raid_hour));
            &&& wake.raid_now == (now_secs >= today)
            &&& wake.next_raid == (if now_secs < today {
                today
            } else {
                today + 86400
            })
        }),
        wake.sleep_secs * 1_000_000_000 + wake.sleep_nanos == (wake.next_raid - now_secs)
            * 1_000_000_000 - now_nanos,
    ensures
        now_secs < wake.next_raid <= now_secs + 86400,
        wake.sleep_secs * 1_000_000_000 + wake.sleep_nanos > 0,
        is_raid_instant(wake.next_raid as int, raid_hour),
        forall|t: int| now_secs < t < wake.next_raid ==> !is_raid_instant(t, raid_hour),
{
    let h = spec_raid_hour(raid_hour) * 3600;
    let d = now_secs as int - now_secs as int % 86400;
    assert(0 <= now_secs as int % 86400 < 86400);
    assert(d % 86400 == 0) by {
        vstd::arithmetic::div_mod::lemma_fundamental_div_mod(now_secs as int, 86400);
        vstd::arithmetic::div_mod::lemma_mod_multiples_basic(now_secs as int / 86400, 86400);
    }
    assert((d + h) % 86400 == h) by {
        vstd::arithmetic::div_mod::lemma_fundamental_div_mod(now_secs as int, 86400);
        vstd::arithmetic::div_mod::lemma_mod_multiples_vanish(now_secs as int / 86400, h, 86400);
        vstd::arithmetic::div_mod::lemma_small_mod(h as nat, 86400);
    }
    assert((d + h + 86400) % 86400 == h) by {
        vstd::arithmetic::div_mod::lemma_fundamental_div_mod(now_secs as int, 86400);
        vstd::arithmetic::div_mod::lemma_mod_multiples_vanish(now_secs as int / 86400 + 1, h, 86400);
        vstd::arithmetic::div_mod::lemma_small_mod(h as nat, 86400);
        assert(86400 * (now_secs as int / 86400 + 1) + h == d + h + 86400);
    }
    assert forall|t: int| now_secs < t < wake.next_raid implies !is_raid_instant(t, raid_hour) by {
        if is_raid_instant(t, raid_hour) {
            vstd::arithmetic::div_mod::lemma_fundamental_div_mod(t, 86400);
            vstd::arithmetic::div_mod::lemma_fundamental_div_mod(now_secs as int, 86400);
            let q = t / 86400;
            let p = now_secs as int / 86400;
            assert(t == 86400 * q + h);
            assert(d == 86400 * p);
            if q <= p - 1 {
                vstd::arithmetic::mul::lemma_mul_inequality(q, p - 1, 86400);
                assert(86400 * q <= 86400 * (p - 1));
            } else if q == p {
            } else {
                vstd::arithmetic::mul::lemma_mul_inequality(p + 1, q, 86400);
                assert(86400 * (p + 1) <= 86400 * q);
            }
        }
    }
}

/// Waking at or after a raid time (and before the next one), the
/// scheduler plans its next wake exactly a day after that raid time: the
/// wakes follow each other day by day, so the raid of every day comes.
pub proof fn lemma_wakes_follow_day_by_day(
    now_secs: i64,
    now_nanos: u32,
    raid_hour: u32,
    wake: GnomeWake,
    t: int,
)
    requires
        -TIMESTAMP_LIMIT <= now_secs <= TIMESTAMP_LIMIT,
        now_nanos < 1_000_000_000,
        ({
            let today = spec_hour_of_day(now_secs as int, spec_raid_hour(raid_hour));
            &&& wake.raid_now == (now_secs >= today)
            &&& wake.next_raid == (if now_secs < today {
                today
            } else {
                today + 86400
            })
        }),
        wake.sleep_secs * 1_000_000_000 + wake.sleep_nanos == (wake.next_raid - now_secs)
            * 1_000_000_000 - now_nanos,
        is_raid_instant(t, raid_hour),
        t <= now_secs < t + 86400,
    ensures
        wake.next_raid == t + 86400,
{
    lemma_wake_is_next_raid(now_secs, now_nanos, raid_hour, wake);
    let h = spec_raid_hour(raid_hour) * 3600;
    let n = wake.next_raid as int;
    vstd::arithmetic::div_mod::lemma_fundamental_div_mod(t, 86400);
    vstd::arithmetic::div_mod::lemma_fundamental_div_mod(n, 86400);
    let qt = t / 86400;
    let qn = n / 86400;
    assert(t == 86400 * qt + h);
    assert(n == 86400 * qn + h);
    assert(is_raid_instant(t + 86400, raid_hour)) by {
        vstd::arithmetic::div_mod::lemma_mod_multiples_vanish(qt + 1, h, 86400);
        vstd::arithmetic::div_mod::lemma_small_mod(h as nat, 86400);
        assert(86400 * (qt + 1) + h == t + 86400);
    }
    if n < t + 86400 {
        if qn <= qt {
            vstd::arithmetic::mul::lemma_mul_inequality(qn, qt, 86400);
        } else {
            vstd::arithmetic::mul::lemma_mul_inequality(qt + 1, qn, 86400);
            assert(86400 * (qt + 1) <= 86400 * qn);
        }
    }
}

/// The weight of a candidate in the roulette: the excess over the
/// threshold, plus one.
pub open spec fn gnome_weight(candidate: GnomeVictimCandidate, min_length: i32) -> int {
    candidate.length - min_length + 1
}

/// The total weight of the first `k` candidates.
pub open spec fn prefix_weight(candidates: Seq<GnomeVictimCandidate>, min_length: i32, k: int) -> int
    decreases k,
{
    if k <= 0 {
        0
    } else {
        prefix_weight(candidates, min_length, k - 1) + gnome_weight(candidates[k - 1], min_length)
    }
}

/// The candidates can stand in the roulette: each is longer than the
/// threshold by an excess that fits in an `i32`, and there are not so many
/// that the total weight leaves an `i64`.
pub open spec fn raid_candidates_ok(candidates: Seq<GnomeVictimCandidate>, min_length: i32) -> bool {
    &&& candidates.len() <= u32::MAX
    &&& forall|i: int|
        0 <= i < candidates.len() ==> min_length < #[trigger] candidates[i].length && candidates[i].length
            - min_length <= i32::MAX
}

/// The roll `roll` picks the candidate `i`: it falls into the candidate's
/// share of the total weight.
pub open spec fn picks(candidates: Seq<GnomeVictimCandidate>, min_length: i32, roll: int, i: int) -> bool {
    &&& 0 <= i < candidates.len()
    &&& prefix_weight(candidates, min_length, i) <= roll < prefix_weight(candidates, min_length, i + 1)
}

/// The total weight only grows, by each candidate's weight, and stays
/// within bounds.
pub proof fn lemma_prefix_weight_grows(
    candidates: Seq<GnomeVictimCandidate>,
    min_length: i32,
    j: int,
    k: int,
)
    requires
        raid_candidates_ok(candidates, min_length),
        0 <= j <= k <= candidates.len(),
    ensures
        prefix_weight(candidates, min_length, j) + (k - j) * 2 <= prefix_weight(candidates, min_length, k),
        prefix_weight(candidates, min_length, k) <= k * 0x8000_0000,
    decreases k,
{
    if j < k {
        lemma_prefix_weight_grows(candidates, min_length, j, k - 1);
        assert(min_length < candidates[k - 1].length);
    } else if k > 0 {
        lemma_prefix_weight_grows(candidates, min_length, 0, k - 1);
        assert(min_length < candidates[k - 1].length);
    }
}

/// Computes the total weight of the candidates.
fn total_weight(candidates: &Vec<GnomeVictimCandidate>, min_length: i32) -> (res: i64)
    requires
        raid_candidates_ok(candidates@, min_length),
    ensures
        res == prefix_weight(candidates@, min_length, candidates@.len() as int),
{
    let mut total: i64 = 0;
    let mut i: usize = 0;
    while i < candidates.len()
        invariant
            raid_candidates_ok(candidates@, min_length),
            0 <= i <= candidates.len(),
            total == prefix_weight(candidates@, min_length, i as int),
        decreases candidates.len() - i,
    {
        proof {
            lemma_prefix_weight_grows(candidates@, min_length, 0, i as int + 1);
            assert(i as int * 0x8000_0000 < 0x8000_0000_0000_0000) by (nonlinear_arith)
                requires
                    i < 0x1_0000_0000,
            ;
        }
        let excess: i32 = candidates[i].length - min_length;
        total = total + excess as i64 + 1;
        i = i + 1;
    }
    total
}

/// Picks the candidate into whose share of the total weight the roll
/// falls: a progressive and fair roulette.
pub fn pick_weighted(candidates: &Vec<GnomeVictimCandidate>, min_length: i32, roll: i64) -> (res: usize)
    requires
        raid_candidates_ok(candidates@, min_length),
        0 <= roll < prefix_weight(candidates@, min_length, candidates@.len() as int),
    ensures
        picks(candidates@, min_length, roll as int, res as int),
{
    let mut rest: i64 = roll;
    let mut i: usize = 0;
    while i < candidates.len()
        invariant
            raid_candidates_ok(candidates@, min_length),
            0 <= roll < prefix_weight(candidates@, min_length, candidates@.len() as int),
            0 <= i <= candidates.len(),
            rest == roll - prefix_weight(candidates@, min_length, i as int),
            0 <= rest,
        decreases candidates.len() - i,
    {
        let weight: i64 = (candidates[i].length - min_length) as i64 + 1;
        if rest < weight {
            return i;
        }
        rest = rest - weight;
        i = i + 1;
    }
    0
}

/// Each candidate is picked by exactly the rolls that fall into its share,
/// the shares follow each other without gaps or overlaps, and so no two
/// candidates are picked by one roll.
pub proof fn lemma_pick_is_unique(
    candidates: Seq<GnomeVictimCandidate>,
    min_length: i32,
    roll: int,
    i: int,
    j: int,
)
    requires
        raid_candidates_ok(candidates, min_length),
        picks(candidates, min_length, roll, i),
        picks(candidates, min_length, roll, j),
    ensures
        i == j,
{
    if i < j {
        lemma_prefix_weight_grows(candidates, min_length, i + 1, j);
    } else if j < i {
        lemma_prefix_weight_grows(candidates, min_length, j + 1, i);
    }
}

/// The share of each candidate is its weight: the excess of its length
/// over the threshold, plus one.
pub proof fn lemma_share_is_weight(candidates: Seq<GnomeVictimCandidate>, min_length: i32, i: int)
    requires
        raid_candidates_ok(candidates, min_length),
        0 <= i < candidates.len(),
    ensures
        prefix_weight(candidates, min_length, i + 1) - prefix_weight(candidates, min_length, i)
            == candidates[i].length - min_length + 1,
        forall|roll: int|
            prefix_weight(candidates, min_length, i) <= roll < prefix_weight(
                candidates,
                min_length,
                i + 1,
            ) <==> #[trigger] picks(candidates, min_length, roll, i),
{
}

/// How much the gnomes steal from a victim with a dick of `victim_length`
/// after drawing `draw`: the draw, but no more than the dick; nothing at
/// all (no raid) where that is not positive.
pub open spec fn spec_gnome_theft(victim_length: i32, draw: i32) -> Option<i32> {
    let stolen = if draw < victim_length {
        draw
    } else {
        victim_length
    };
    if stolen <= 0 {
        None
    } else {
        Some(stolen)
    }
}

/// How much the gnomes steal.
pub fn gnome_theft(victim_length: i32, draw: i32) -> (res: Option<i32>)
    ensures
        res == spec_gnome_theft(victim_length, draw),
{
    let stolen = if draw < victim_length {
        draw
    } else {
        victim_length
    };
    if stolen <= 0 {
        None
    } else {
        Some(stolen)
    }
}

/// A planned gnome raid.
#[derive(Debug, Clone, Copy, PartialEq, Eq, Structural)]
pub struct GnomeRaid {
    /// The index of the victim among the candidates.
    pub victim: usize,
    /// How much is stolen.
    pub stolen: i32,
}

/// Plans the raid of a chat: nobody to rob means no raid; otherwise the
/// roulette picks the victim and the gnomes draw how much they steal, and
/// a theft of nothing is no raid.
pub fn plan_gnome_raid(cfg: &EnchConfig, candidates: &Vec<GnomeVictimCandidate>) -> (res: Option<
    GnomeRaid,
>)
    requires
        candidates@.len() > 0 ==> valid_range(cfg.gnomes_steal),
        raid_candidates_ok(candidates@, cfg.gnomes_min_length),
    ensures
        candidates@.len() == 0 ==> res is None,
        candidates@.len() > 0 && cfg.gnomes_steal@.start > 0 && (forall|i: int|
            0 <= i < candidates@.len() ==> #[trigger] candidates@[i].length > 0) ==> res is Some,
        res is None && candidates@.len() > 0 ==> exists|victim: int, roll: int, draw: i32|
            #![trigger picks(candidates@, cfg.gnomes_min_length, roll, victim), spec_gnome_theft(candidates@[victim].length, draw)]
            picks(candidates@, cfg.gnomes_min_length, roll, victim) && cfg.gnomes_steal@.start
                <= draw <= cfg.gnomes_steal@.end && spec_gnome_theft(candidates@[victim].length, draw)
                is None,
        res matches Some(raid) ==> {
            &&& raid.victim < candidates@.len()
            &&& 0 < raid.stolen <= candidates@[raid.victim as int].length
            &&& exists|roll: int| picks(candidates@, cfg.gnomes_min_length, roll, raid.victim as int)
            &&& exists|draw: i32|
                #![trigger spec_gnome_theft(candidates@[raid.victim as int].length, draw)]
                cfg.gnomes_steal@.start <= draw <= cfg.gnomes_steal@.end && spec_gnome_theft(
                    candidates@[raid.victim as int].length,
                    draw,
                ) == Some(raid.stolen)
        },
{
    if candidates.len() == 0 {
        return None;
    }
    let total = total_weight(candidates, cfg.gnomes_min_length);
    proof {
        lemma_prefix_weight_grows(candidates@, cfg.gnomes_min_length, 0, candidates@.len() as int);
    }
    let roll = os_gen_range_below(0, total);
    let victim = pick_weighted(candidates, cfg.gnomes_min_length, roll);
    let draw = roll_range(&cfg.gnomes_steal);
    assert(picks(candidates@, cfg.gnomes_min_length, roll as int, victim as int));
    assert(cfg.gnomes_steal@.start <= draw <= cfg.gnomes_steal@.end);
    match gnome_theft(candidates[victim].length, draw) {
        Some(stolen) => {
            let raid = GnomeRaid { victim, stolen };
            assert(spec_gnome_theft(candidates@[raid.victim as int].length, draw) == Some(raid.stolen));
            assert(exists|d: i32|
                #![trigger spec_gnome_theft(candidates@[raid.victim as int].length, d)]
                cfg.gnomes_steal@.start <= d <= cfg.gnomes_steal@.end && spec_gnome_theft(
                    candidates@[raid.victim as int].length,
                    d,
                ) == Some(raid.stolen));
            Some(raid)
        },
        None => {
            assert(spec_gnome_theft(candidates@[victim as int].length, draw) is None);
            None
        },
    }
}

/// The gnomes steal something whenever they raid, never more than the
/// victim has (so the victim's dick does not turn negative), and no more
/// than they drew.
pub proof fn lemma_theft_bounded(victim_length: i32, draw: i32)
    ensures
        spec_gnome_theft(victim_length, draw) matches Some(stolen) ==> 0 < stolen <= victim_length
            && stolen <= draw && victim_length - stolen >= 0,
        spec_gnome_theft(victim_length, draw) is None <==> (draw <= 0 || victim_length <= 0),
{
}

/// Whether the planned raid goes ahead once its registration is known:
/// only a raid registered for the day is carried out, so a chat is robbed
/// at most once per registered raid.
pub fn raid_after_registration(raid: GnomeRaid, registered: bool) -> (res: Option<GnomeRaid>)
    ensures
        res == (if registered {
            Some(raid)
        } else {
            None
        }),
{
    if registered {
        Some(raid)
    } else {
        None
    }
}

/// Whenever the gnomes draw something and the victim has something, they
/// steal the smaller of the two: the whole draw when the dick is longer,
/// the whole dick otherwise.
pub proof fn lemma_theft_is_the_smaller(victim_length: i32, draw: i32)
    ensures
        0 < draw && 0 < victim_length && draw < victim_length ==> spec_gnome_theft(
            victim_length,
            draw,
        ) == Some(draw),
        0 < draw && 0 < victim_length && victim_length <= draw ==> spec_gnome_theft(
            victim_length,
            draw,
        ) == Some(victim_length),
        spec_gnome_theft(victim_length, draw) matches Some(stolen) ==> (stolen == draw
            || stolen == victim_length) && stolen <= draw && stolen <= victim_length,
{
}

/// The scheduler wakes at the configured hour (UTC): the next raid falls at
/// that hour of a day, where hours past 23 mean 23, and within a day after
/// the moment it plans at.
pub proof fn lemma_wake_at_the_configured_hour(
    now_secs: i64,
    now_nanos: u32,
    raid_hour: u32,
    wake: GnomeWake,
)
    requires
        -TIMESTAMP_LIMIT <= now_secs <= TIMESTAMP_LIMIT,
        now_nanos < 1_000_000_000,
        ({
            let today = spec_hour_of_day(now_secs as int, spec_raid_hour(raid_hour));
            &&& wake.raid_now == (now_secs >= today)
            &&& wake.next_raid == (if now_secs < today {
                today
            } else {
                today + 86400
            })
        }),
        wake.sleep_secs * 1_000_000_000 + wake.sleep_nanos == (wake.next_raid - now_secs)
            * 1_000_000_000 - now_nanos,
    ensures
        raid_hour <= 23 ==> wake.next_raid % 86400 == raid_hour * 3600,
        raid_hour > 23 ==> wake.next_raid % 86400 == 23 * 3600,
        now_secs < wake.next_raid <= now_secs + 86400,
        wake.raid_now <==> now_secs % 86400 >= (if raid_hour <= 23 {
            raid_hour as int
        } else {
            23
        }) * 3600,
{
    lemma_wake_is_next_raid(now_secs, now_nanos, raid_hour, wake);
}

} // verus!
