//! `/sex`: a vagina offers a duel, a dick accepts it with the button.

use vstd::prelude::*;
use crate::callback::SexCallbackData;
use crate::ench::{has_vagina, is_vagina};
use crate::random::os_gen_ratio;
use crate::repo::EnchState;

verus! {

/// The sharpness of a player's vagina: nothing enchanted counts as zero.
pub open spec fn spec_sharpness_of(state: Option<EnchState>) -> i32 {
    match state {
        Some(s) => s.sharpness,
        None => 0,
    }
}

/// The sharpness of a player's vagina: nothing enchanted counts as zero.
pub fn sharpness_of(state: Option<EnchState>) -> (res: i32)
    ensures
        res == spec_sharpness_of(state),
{
    match state {
        Some(s) => s.sharpness,
        None => 0,
    }
}

/// The answer to `/sex`.
#[derive(Debug, Clone, Copy, PartialEq, Eq, Structural)]
pub enum SexOffer {
    /// The player has a dick, not a vagina.
    NoVagina,
    /// The vagina is not sharpened.
    NotSharpened,
    /// The duel is offered, with a button that carries `data`.
    Offer { sharpness: i32, data: SexCallbackData },
}

impl SexOffer {
    /// The key of the message that carries the answer.
    pub fn key(&self) -> (res: &'static str)
        ensures
            res@ == match *self {
                SexOffer::NoVagina => "commands.sex.errors.no_vagina"@,
                SexOffer::NotSharpened => "commands.sex.errors.not_sharpened"@,
                SexOffer::Offer { .. } => "commands.sex.start"@,
            },
    {
        match self {
            SexOffer::NoVagina => "commands.sex.errors.no_vagina",
            SexOffer::NotSharpened => "commands.sex.errors.not_sharpened",
            SexOffer::Offer { .. } => "commands.sex.start",
        }
    }
}

/// The answer to `/sex` from a player with a dick: there is no vagina to
/// offer.
pub fn sex_vagina_check(length: i32) -> (res: Option<SexOffer>)
    ensures
        res == (if is_vagina(length) {
            None
        } else {
            Some(SexOffer::NoVagina)
        }),
{
    if has_vagina(length) {
        None
    } else {
        Some(SexOffer::NoVagina)
    }
}

/// The answer to `/sex` of a player with a vagina: only a sharpened vagina
/// offers a duel; the button carries the initiator and the sharpness (cut
/// to 16 bits).
pub open spec fn spec_sex_offer(initiator: u64, state: Option<EnchState>) -> SexOffer {
    let sharpness = spec_sharpness_of(state);
    if sharpness <= 0 {
        SexOffer::NotSharpened
    } else {
        SexOffer::Offer { sharpness, data: SexCallbackData { initiator, sharpness: sharpness as u16 } }
    }
}

/// The answer to `/sex` of a player with a vagina.
pub fn sex_offer(initiator: u64, state: Option<EnchState>) -> (res: SexOffer)
    ensures
        res == spec_sex_offer(initiator, state),
{
    let sharpness = sharpness_of(state);
    if sharpness <= 0 {
        SexOffer::NotSharpened
    } else {
        SexOffer::Offer {
            sharpness,
            data: SexCallbackData { initiator, sharpness: sharpness as u16 },
        }
    }
}

/// Why a press of the button is turned down.
#[derive(Debug, Clone, Copy, PartialEq, Eq, Structural)]
pub enum SexDuelError {
    /// The initiator pressed their own button.
    SamePerson,
    /// The offer is gone, or the vagina has changed since.
    Expired,
    /// The dick is shorter than the vagina is sharp.
    TooShort,
}

impl SexDuelError {
    /// The key of the message that turns the press down.
    pub fn key(&self) -> (res: &'static str)
        ensures
            res@ == match *self {
                SexDuelError::SamePerson => "commands.sex.errors.same_person"@,
                SexDuelError::Expired => "commands.sex.errors.expired"@,
                SexDuelError::TooShort => "commands.sex.errors.too_short"@,
            },
    {
        match self {
            SexDuelError::SamePerson => "commands.sex.errors.same_person",
            SexDuelError::Expired => "commands.sex.errors.expired",
            SexDuelError::TooShort => "commands.sex.errors.too_short",
        }
    }
}

/// The first checks of a press: nobody duels their own vagina, and the
/// offer must still be attached to a message.
pub fn duel_precheck(data: &SexCallbackData, defender: u64, has_message: bool) -> (res: Result<
    (),
    SexDuelError,
>)
    ensures
        res == (if data.initiator == defender {
            Err(SexDuelError::SamePerson)
        } else if !has_message {
            Err(SexDuelError::Expired)
        } else {
            Ok(())
        }),
{
    if data.initiator == defender {
        Err(SexDuelError::SamePerson)
    } else if !has_message {
        Err(SexDuelError::Expired)
    } else {
        Ok(())
    }
}

/// The sharpness the duel is fought with: the actual one, which must still
/// be positive and be the one the button carries.
pub open spec fn spec_duel_sharpness(data: SexCallbackData, state: Option<EnchState>) -> Result<
    i32,
    SexDuelError,
> {
    let actual = spec_sharpness_of(state);
    if actual <= 0 || actual != data.sharpness as i32 {
        Err(SexDuelError::Expired)
    } else {
        Ok(actual)
    }
}

/// Checks the initiator's actual vagina against the offer.
pub fn duel_sharpness(data: &SexCallbackData, state: Option<EnchState>) -> (res: Result<
    i32,
    SexDuelError,
>)
    ensures
        res == spec_duel_sharpness(*data, state),
        res matches Ok(s) ==> 0 < s <= u16::MAX,
{
    let actual = sharpness_of(state);
    if actual <= 0 || actual != data.sharpness as i32 {
        Err(SexDuelError::Expired)
    } else {
        Ok(actual)
    }
}

/// The defender's dick must be at least as long as the vagina is sharp.
pub fn check_defender(defender_length: i32, sharpness: i32) -> (res: Result<(), SexDuelError>)
    ensures
        res == (if defender_length < sharpness {
            Err(SexDuelError::TooShort)
        } else {
            Ok(())
        }),
{
    if defender_length < sharpness {
        Err(SexDuelError::TooShort)
    } else {
        Ok(())
    }
}

/// A fair coin: whether the vagina wins the duel.
pub fn vagina_wins_roll() -> (res: bool) {
    os_gen_ratio(1, 2)
}

/// How a duel ends.
#[derive(Debug, Clone, Copy, PartialEq, Eq, Structural)]
pub enum SexDuelOutcome {
    /// The vagina bites the dick off by its sharpness and becomes a dick of
    /// that very length; the vagina's sharpness is spent.
    VaginaWins { sharpness: i32, defender_growth: i32 },
    /// The dick stands its ground: the vagina is dulled and the defender
    /// gets half the sharpness in bless charges.
    DickWins { sharpness: i32, blesses: i32 },
}

/// How a duel with the given sharpness ends for the given coin.
pub open spec fn spec_duel_outcome(sharpness: i32, vagina_wins: bool) -> SexDuelOutcome {
    if vagina_wins {
        SexDuelOutcome::VaginaWins { sharpness, defender_growth: (-sharpness) as i32 }
    } else {
        SexDuelOutcome::DickWins { sharpness, blesses: (sharpness / 2) as i32 }
    }
}

/// How a duel with the given sharpness ends for the given coin.
pub fn duel_outcome(sharpness: i32, vagina_wins: bool) -> (res: SexDuelOutcome)
    requires
        0 < sharpness,
    ensures
        res == spec_duel_outcome(sharpness, vagina_wins),
{
    if vagina_wins {
        SexDuelOutcome::VaginaWins { sharpness, defender_growth: -sharpness }
    } else {
        SexDuelOutcome::DickWins { sharpness, blesses: sharpness / 2 }
    }
}

impl SexDuelOutcome {
    /// The key of the message that tells the end of the duel.
    pub fn key(&self) -> (res: &'static str)
        ensures
            res@ == match *self {
                SexDuelOutcome::VaginaWins { .. } => "commands.sex.vagina_wins"@,
                SexDuelOutcome::DickWins { .. } => "commands.sex.dick_wins"@,
            },
    {
        match self {
            SexDuelOutcome::VaginaWins { .. } => "commands.sex.vagina_wins",
            SexDuelOutcome::DickWins { .. } => "commands.sex.dick_wins",
        }
    }

    /// Whether bless charges go to the defender: only a positive number.
    pub fn grants_blesses(&self) -> (res: bool)
        ensures
            res == (*self matches SexDuelOutcome::DickWins { blesses, .. } && blesses > 0),
    {
        match self {
            SexDuelOutcome::VaginaWins { .. } => false,
            SexDuelOutcome::DickWins { blesses, .. } => *blesses > 0,
        }
    }
}

/// How much the initiator's dick grows when the vagina wins.
pub open spec fn spec_bite_growth(sharpness: i32, initiator_length: i32) -> int {
    sharpness - initiator_length
}

/// How much the initiator's dick grows when the vagina wins: whatever it
/// takes to become exactly as long as the vagina was sharp.
pub fn bite_growth(sharpness: i32, initiator_length: i32) -> (res: i32)
    requires
        i32::MIN <= sharpness - initiator_length <= i32::MAX,
    ensures
        res == spec_bite_growth(sharpness, initiator_length),
{
    sharpness - initiator_length
}

/// A won duel turns the vagina into a dick exactly as long as it was sharp,
/// and leaves the defender (who was long enough to accept) with a dick that
/// is not negative.
pub proof fn lemma_vagina_win_lengths(sharpness: i32, defender_length: i32, initiator_length: i32)
    requires
        0 < sharpness <= defender_length,
    ensures
        spec_duel_outcome(sharpness, true) matches SexDuelOutcome::VaginaWins {
            defender_growth,
            ..
        } && defender_length + defender_growth >= 0 && defender_length + defender_growth
            == defender_length - sharpness,
        initiator_length + spec_bite_growth(sharpness, initiator_length) == sharpness,
{
}

/// A lost duel gives the defender half the sharpness (rounded down) in
/// bless charges, never more than the sharpness and never a negative number.
pub proof fn lemma_dick_win_blesses(sharpness: i32)
    requires
        0 < sharpness,
    ensures
        spec_duel_outcome(sharpness, false) matches SexDuelOutcome::DickWins { blesses, .. }
            && blesses == sharpness / 2 && 0 <= blesses <= sharpness && (blesses > 0 <==> sharpness
            >= 2),
{
}

/// A button whose offer was made for the current sharpness is still good,
/// and one made before the sharpness changed (within 16 bits) has expired.
pub proof fn lemma_offer_matches_duel(initiator: u64, state: Option<EnchState>, later: Option<
    EnchState,
>)
    requires
        spec_sex_offer(initiator, state) is Offer,
        spec_sharpness_of(state) <= u16::MAX,
    ensures
        spec_sex_offer(initiator, state) matches SexOffer::Offer { data, sharpness } && (
        spec_sharpness_of(later) == sharpness ==> spec_duel_sharpness(data, later) == Ok::<
            i32,
            SexDuelError,
        >(sharpness)) && (spec_sharpness_of(later) != sharpness ==> spec_duel_sharpness(data, later)
            == Err::<i32, SexDuelError>(SexDuelError::Expired)),
{
}

/// A vagina offers a duel exactly when it is sharpened (an enchanted
/// sharpness above zero), and the offer and its button carry the initiator
/// and that very sharpness (cut to 16 bits on the button).
pub proof fn lemma_offer_follows_the_sharpness(initiator: u64, state: Option<EnchState>)
    ensures
        state is Some && state->0.sharpness > 0 ==> spec_sex_offer(initiator, state)
            == (SexOffer::Offer {
            sharpness: state->0.sharpness,
            data: SexCallbackData { initiator, sharpness: state->0.sharpness as u16 },
        }),
        (spec_sex_offer(initiator, state) == SexOffer::NotSharpened) <==> (state is None
            || state->0.sharpness <= 0),
        spec_sex_offer(initiator, state) != SexOffer::NoVagina,
{
}

/// A duel is fought with the sharpness it was accepted with: a won duel
/// bites off exactly that much of the defender and leaves the initiator a
/// dick of exactly that length; a lost one grants half of it in blesses.
pub proof fn lemma_duel_keeps_the_sharpness(sharpness: i32, initiator_length: i32)
    requires
        0 < sharpness,
        i32::MIN <= sharpness - initiator_length <= i32::MAX,
    ensures
        spec_duel_outcome(sharpness, true) == (SexDuelOutcome::VaginaWins {
            sharpness,
            defender_growth: -sharpness as i32,
        }),
        spec_duel_outcome(sharpness, false) == (SexDuelOutcome::DickWins {
            sharpness,
            blesses: (sharpness / 2) as i32,
        }),
        initiator_length + spec_bite_growth(sharpness, initiator_length) == sharpness,
{
}

} // verus!
