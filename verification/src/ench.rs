//! `/ench` and `/enchb`: the decisions of an enchanting attempt.

use vstd::prelude::*;
use crate::config::EnchConfig;
use crate::random::os_gen_ratio;
use crate::repo::EnchState;

verus! {

/// A dick that is not positive is a vagina.
pub open spec fn is_vagina(length: i32) -> bool {
    length <= 0
}

/// Whether a player with a dick of `length` owns a vagina.
pub fn has_vagina(length: i32) -> (res: bool)
    ensures
        res == is_vagina(length),
{
    length <= 0
}

/// The answer to an `/ench` from a player with a dick: there is no vagina
/// to enchant.
pub fn vagina_check(length: i32) -> (res: Option<EnchReply>)
    ensures
        res == (if is_vagina(length) {
            None
        } else {
            Some(EnchReply::NoVagina { length })
        }),
{
    if has_vagina(length) {
        None
    } else {
        Some(EnchReply::NoVagina { length })
    }
}

/// `value` brought into `min..=max`, as `Ord::clamp` does.
pub open spec fn clamped(value: u32, min: u32, max: u32) -> u32 {
    if value < min {
        min
    } else if value > max {
        max
    } else {
        value
    }
}

/// The chance (in percents) to enchant up to `target_level`: certain up to
/// the safe level, above it the share that the meat mass makes, kept
/// within the configured bounds.
pub open spec fn spec_ench_chance(cfg: EnchConfig, target_level: i32, mass_percent: u32) -> u32 {
    if target_level <= cfg.safe_level {
        100
    } else {
        clamped(mass_percent, cfg.chance_min, cfg.chance_max)
    }
}

/// The chance (in percents) to successfully enchant the vagina up to
/// `target_level`. `mass_percent` is the share (in percents, truncated)
/// that the total mass of the positive dicks of the chat makes of itself
/// plus the squared distance above the safe level times the difficulty:
/// the more meat around, the easier it goes.
pub fn ench_chance(cfg: &EnchConfig, target_level: i32, mass_percent: u32) -> (res: u32)
    requires
        target_level > cfg.safe_level ==> cfg.chance_min <= cfg.chance_max,
    ensures
        res == spec_ench_chance(*cfg, target_level, mass_percent),
{
    if target_level <= cfg.safe_level {
        return 100;
    }
    if mass_percent < cfg.chance_min {
        cfg.chance_min
    } else if mass_percent > cfg.chance_max {
        cfg.chance_max
    } else {
        mass_percent
    }
}

/// Whether an attempt with the given chance succeeds: always at a chance
/// of 100 or more, never at 0, otherwise a draw.
pub fn ench_success(chance: u32) -> (res: bool)
    ensures
        chance >= 100 ==> res,
        chance == 0 ==> !res,
{
    chance >= 100 || os_gen_ratio(chance, 100)
}

/// What becomes of an `/ench` once the player's state is known.
#[derive(Debug, Clone, Copy, PartialEq, Eq, Structural)]
pub enum EnchVerdict {
    /// No attempts are left for today.
    NoAttempts,
    /// An attempt under a bless without a bless charge.
    NoBlesses,
    /// An attempt to reach the given level.
    Attempt { target: i32 },
}

/// What becomes of an `/ench` once the player's state is known.
pub open spec fn spec_ench_verdict(state: EnchState, with_bless: bool) -> EnchVerdict {
    if state.attempts_left <= 0 {
        EnchVerdict::NoAttempts
    } else if with_bless && state.bless_charges <= 0 {
        EnchVerdict::NoBlesses
    } else {
        EnchVerdict::Attempt { target: (state.sharpness + 1) as i32 }
    }
}

/// Decides whether an attempt is made: it takes an attempt left for the
/// day and, under a bless, a bless charge; it aims one level higher.
pub fn ench_verdict(state: &EnchState, with_bless: bool) -> (res: EnchVerdict)
    requires
        spec_ench_verdict(*state, with_bless) is Attempt ==> state.sharpness < i32::MAX,
    ensures
        res == spec_ench_verdict(*state, with_bless),
{
    if state.attempts_left <= 0 {
        EnchVerdict::NoAttempts
    } else if with_bless && state.bless_charges <= 0 {
        EnchVerdict::NoBlesses
    } else {
        EnchVerdict::Attempt { target: state.sharpness + 1 }
    }
}

/// The level after an attempt: one higher on success, kept by a bless on
/// failure, and back to zero on a failure without a bless.
pub open spec fn spec_new_sharpness(sharpness: i32, success: bool, with_bless: bool) -> i32 {
    if success {
        (sharpness + 1) as i32
    } else if with_bless {
        sharpness
    } else {
        0
    }
}

/// The level after an attempt.
pub fn ench_new_sharpness(sharpness: i32, success: bool, with_bless: bool) -> (res: i32)
    requires
        sharpness < i32::MAX,
    ensures
        res == spec_new_sharpness(sharpness, success, with_bless),
{
    if success {
        sharpness + 1
    } else if with_bless {
        sharpness
    } else {
        0
    }
}

/// The answer to an `/ench` or `/enchb`.
#[derive(Debug, Clone, Copy, PartialEq, Eq, Structural)]
pub enum EnchReply {
    /// The player has a dick of this length, not a vagina.
    NoVagina { length: i32 },
    /// No attempts are left; `until_tomorrow` adds the time till the next day.
    NoAttempts { until_tomorrow: bool },
    /// An attempt under a bless without a bless charge.
    NoBlesses,
    /// The attempt was made.
    Enchanted {
        success: bool,
        with_bless: bool,
        level: i32,
        chance: u32,
        blesses: i32,
        attempts_left: i32,
    },
}

/// The answer before any attempt is made, where one is due.
pub open spec fn spec_verdict_reply(verdict: EnchVerdict) -> Option<EnchReply> {
    match verdict {
        EnchVerdict::NoAttempts => Some(EnchReply::NoAttempts { until_tomorrow: true }),
        EnchVerdict::NoBlesses => Some(EnchReply::NoBlesses),
        EnchVerdict::Attempt { .. } => None,
    }
}

/// The answer before any attempt is made, where one is due.
pub fn verdict_reply(verdict: EnchVerdict) -> (res: Option<EnchReply>)
    ensures
        res == spec_verdict_reply(verdict),
{
    match verdict {
        EnchVerdict::NoAttempts => Some(EnchReply::NoAttempts { until_tomorrow: true }),
        EnchVerdict::NoBlesses => Some(EnchReply::NoBlesses),
        EnchVerdict::Attempt { .. } => None,
    }
}

/// The answer once the attempt has been written: a write that found no
/// attempt (or no bless) left — a double click — reports that no attempts
/// are left; otherwise the result, the level reached, the chance, the
/// bless charges and the attempts that remain.
pub open spec fn spec_attempt_reply(
    state: EnchState,
    with_bless: bool,
    chance: u32,
    success: bool,
    new_sharpness: i32,
    applied: bool,
) -> EnchReply {
    if !applied {
        EnchReply::NoAttempts { until_tomorrow: false }
    } else {
        EnchReply::Enchanted {
            success,
            with_bless,
            level: new_sharpness,
            chance,
            blesses: (state.bless_charges - (if with_bless { 1int } else { 0int })) as i32,
            attempts_left: (state.attempts_left - 1) as i32,
        }
    }
}

/// The answer once the attempt has been written.
pub fn attempt_reply(
    state: &EnchState,
    with_bless: bool,
    chance: u32,
    success: bool,
    new_sharpness: i32,
    applied: bool,
) -> (res: EnchReply)
    requires
        spec_ench_verdict(*state, with_bless) is Attempt,
    ensures
        res == spec_attempt_reply(*state, with_bless, chance, success, new_sharpness, applied),
{
    if !applied {
        EnchReply::NoAttempts { until_tomorrow: false }
    } else {
        let spent: i32 = if with_bless {
            1
        } else {
            0
        };
        EnchReply::Enchanted {
            success,
            with_bless,
            level: new_sharpness,
            chance,
            blesses: state.bless_charges - spent,
            attempts_left: state.attempts_left - 1,
        }
    }
}

impl EnchReply {
    /// The key of the message that carries the answer.
    pub fn key(&self) -> (res: &'static str)
        ensures
            res@ == match *self {
                EnchReply::NoVagina { .. } => "commands.ench.errors.no_vagina"@,
                EnchReply::NoAttempts { .. } => "commands.ench.errors.no_attempts"@,
                EnchReply::NoBlesses => "commands.ench.errors.no_blesses"@,
                EnchReply::Enchanted { success, with_bless, .. } => if success && !with_bless {
                    "commands.ench.success"@
                } else if success {
                    "commands.ench.success_bless"@
                } else if !with_bless {
                    "commands.ench.fail"@
                } else {
                    "commands.ench.fail_bless"@
                },
            },
    {
        match self {
            EnchReply::NoVagina { .. } => "commands.ench.errors.no_vagina",
            EnchReply::NoAttempts { .. } => "commands.ench.errors.no_attempts",
            EnchReply::NoBlesses => "commands.ench.errors.no_blesses",
            EnchReply::Enchanted { success, with_bless, .. } => match (*success, *with_bless) {
                (true, false) => "commands.ench.success",
                (true, true) => "commands.ench.success_bless",
                (false, false) => "commands.ench.fail",
                (false, true) => "commands.ench.fail_bless",
            },
        }
    }
}

/// Above the safe level the chance stays within the configured bounds; at
/// or below it the enchantment is certain.
pub proof fn lemma_chance_bounds(cfg: EnchConfig, target_level: i32, mass_percent: u32)
    requires
        cfg.chance_min <= cfg.chance_max,
    ensures
        target_level <= cfg.safe_level ==> spec_ench_chance(cfg, target_level, mass_percent)
            == 100,
        target_level > cfg.safe_level ==> cfg.chance_min <= spec_ench_chance(
            cfg,
            target_level,
            mass_percent,
        ) <= cfg.chance_max,
{
}

/// An attempt changes the level by at most one step up: a success reaches
/// exactly the target of the verdict, a failure never raises the level, and
/// only a failure without a bless loses it.
pub proof fn lemma_attempt_moves_one_level(state: EnchState, with_bless: bool, success: bool)
    requires
        spec_ench_verdict(state, with_bless) is Attempt,
        state.sharpness < i32::MAX,
    ensures
        success ==> spec_new_sharpness(state.sharpness, success, with_bless) == spec_ench_verdict(
            state,
            with_bless,
        )->target,
        !success && with_bless ==> spec_new_sharpness(state.sharpness, success, with_bless)
            == state.sharpness,
        !success && !with_bless ==> spec_new_sharpness(state.sharpness, success, with_bless) == 0,
{
}

/// A written attempt spends exactly one attempt of the day, and a bless
/// charge exactly when it was made under a bless; neither count it reports
/// is negative.
pub proof fn lemma_attempt_spends(
    state: EnchState,
    with_bless: bool,
    chance: u32,
    success: bool,
    new_sharpness: i32,
)
    requires
        spec_ench_verdict(state, with_bless) is Attempt,
    ensures
        ({
            let reply = spec_attempt_reply(state, with_bless, chance, success, new_sharpness, true);
            &&& reply is Enchanted
            &&& reply->attempts_left == state.attempts_left - 1
            &&& reply->attempts_left >= 0
            &&& reply->level == new_sharpness
            &&& with_bless ==> reply->blesses == state.bless_charges - 1 && reply->blesses >= 0
            &&& !with_bless ==> reply->blesses == state.bless_charges
        }),
{
}

/// More meat never lowers the chance: the chance grows with the share that
/// the meat mass makes (a share that itself grows with the mass).
pub proof fn lemma_chance_grows_with_share(cfg: EnchConfig, target_level: i32, share: u32, larger: u32)
    requires
        cfg.chance_min <= cfg.chance_max,
        share <= larger,
    ensures
        spec_ench_chance(cfg, target_level, share) <= spec_ench_chance(cfg, target_level, larger),
{
}

/// A higher target is never easier: with a share that does not grow with
/// the target and stays a percentage, and a lowest chance that is one too,
/// the chance for the higher target is not above the chance for the lower.
pub proof fn lemma_higher_target_not_easier(
    cfg: EnchConfig,
    target: i32,
    higher: i32,
    share: u32,
    share_at_higher: u32,
)
    requires
        cfg.chance_min <= cfg.chance_max,
        cfg.chance_min <= 100,
        target <= higher,
        share_at_higher <= share <= 100,
    ensures
        spec_ench_chance(cfg, higher, share_at_higher) <= spec_ench_chance(cfg, target, share),
{
}

/// What `/ench` decides from the player's state: with an attempt left (and,
/// under a bless, a bless charge) the attempt is made, one level above the
/// current one; "no attempts" comes exactly when none is left, and "no
/// blesses" exactly when an attempt is left but a blessed one has no charge.
pub proof fn lemma_verdict_follows_the_counts(state: EnchState, with_bless: bool)
    requires
        state.sharpness < i32::MAX,
    ensures
        state.attempts_left >= 1 && (!with_bless || state.bless_charges >= 1) ==> spec_ench_verdict(
            state,
            with_bless,
        ) == (EnchVerdict::Attempt { target: (state.sharpness + 1) as i32 }),
        (spec_ench_verdict(state, with_bless) == EnchVerdict::NoAttempts) <==> state.attempts_left
            <= 0,
        (spec_ench_verdict(state, with_bless) == EnchVerdict::NoBlesses) <==> (state.attempts_left
            >= 1 && with_bless && state.bless_charges <= 0),
        (spec_ench_verdict(state, with_bless) matches EnchVerdict::Attempt { target } ==> target
            == state.sharpness + 1),
{
}

} // verus!
