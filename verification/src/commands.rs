//! The commands of the enchanting mini-game.

use vstd::prelude::*;

verus! {

/// `/ench` enchants the vagina, `/enchb` does it under a bless.
#[derive(Debug, Clone, Copy, PartialEq, Eq, Structural)]
pub enum EnchCommands {
    Ench,
    Enchb,
}

/// `/bless` chooses the Bless of Day.
#[derive(Debug, Clone, Copy, PartialEq, Eq, Structural)]
pub enum BlessCommands {
    Bless,
}

/// `/sex` offers a duel to the dicks of the chat.
#[derive(Debug, Clone, Copy, PartialEq, Eq, Structural)]
pub enum SexCommands {
    Sex,
}

impl EnchCommands {
    /// Whether the attempt is made under a bless (`/enchb`).
    pub fn with_bless(&self) -> (res: bool)
        ensures
            res == (*self == EnchCommands::Enchb),
    {
        match self {
            EnchCommands::Ench => false,
            EnchCommands::Enchb => true,
        }
    }
}

} // verus!
