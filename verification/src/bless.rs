//! `/bless`: once a day a random vagina of the chat gets bless charges.

use vstd::prelude::*;
use crate::config::{EnchConfig, roll_range, valid_range};
use crate::repo::VaginaCandidate;

verus! {

/// The draw of the Bless of Day.
#[derive(Debug, Clone, PartialEq, Eq)]
pub enum BlessDraw {
    /// No vagina of the chat was active lately.
    NoCandidates,
    /// The winner and the charges they are to get.
    Winner { winner: VaginaCandidate, amount: i32 },
}

/// Draws the amount of bless charges for the chosen vagina, if there is one.
pub fn bless_draw(cfg: &EnchConfig, winner: Option<VaginaCandidate>) -> (res: BlessDraw)
    requires
        winner is Some ==> valid_range(cfg.bless_amount),
    ensures
        winner is None ==> res == BlessDraw::NoCandidates,
        winner matches Some(w) ==> res matches BlessDraw::Winner { winner: chosen, amount } && chosen
            == w && cfg.bless_amount@.start <= amount <= cfg.bless_amount@.end,
{
    match winner {
        None => BlessDraw::NoCandidates,
        Some(winner) => {
            let amount = roll_range(&cfg.bless_amount);
            BlessDraw::Winner { winner, amount }
        },
    }
}

/// The answer to `/bless`.
#[derive(Debug, Clone, PartialEq, Eq)]
pub enum BlessReply {
    /// Nobody to bless.
    NoCandidates,
    /// Somebody was already blessed today.
    AlreadyChosen,
    /// The winner got the charges (and the answer adds the time till the
    /// next Bless of Day).
    Blessed { uid: i64, name: String, amount: i32 },
}

impl BlessReply {
    /// The key of the message that carries the answer.
    pub fn key(&self) -> (res: &'static str)
        ensures
            res@ == match *self {
                BlessReply::NoCandidates => "commands.bless.no_candidates"@,
                BlessReply::AlreadyChosen => "commands.bless.already_chosen"@,
                BlessReply::Blessed { .. } => "commands.bless.result"@,
            },
    {
        match self {
            BlessReply::NoCandidates => "commands.bless.no_candidates",
            BlessReply::AlreadyChosen => "commands.bless.already_chosen",
            BlessReply::Blessed { .. } => "commands.bless.result",
        }
    }

    /// Whether the winner's bless charges are to be added: exactly when the
    /// Bless of Day was registered for them.
    pub fn grants_blesses(&self) -> (res: bool)
        ensures
            res == (*self is Blessed),
    {
        match self {
            BlessReply::Blessed { .. } => true,
            _ => false,
        }
    }
}

/// The answer once the Bless of Day has (or has not) been registered for
/// the winner: only the first Bless of the day counts.
pub fn bless_reply(winner: VaginaCandidate, amount: i32, registered: bool) -> (res: BlessReply)
    ensures
        registered ==> res == (BlessReply::Blessed { uid: winner.uid, name: winner.name, amount }),
        !registered ==> res == BlessReply::AlreadyChosen,
{
    if registered {
        BlessReply::Blessed { uid: winner.uid, name: winner.name, amount }
    } else {
        BlessReply::AlreadyChosen
    }
}

/// The answer where nobody could be chosen.
pub fn no_candidates_reply() -> (res: BlessReply)
    ensures
        res == BlessReply::NoCandidates,
{
    BlessReply::NoCandidates
}

} // verus!
