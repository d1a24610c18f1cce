//! The rows that the enchanting repository reads from the database.

use vstd::prelude::*;

verus! {

/// The enchanting state of a player in a chat.
#[derive(Debug, Clone, Copy, PartialEq, Eq, Structural)]
pub struct EnchState {
    pub sharpness: i32,
    pub bless_charges: i32,
    pub attempts_left: i32,
}

/// A player of the chat who owns a vagina (a non-positive dick).
#[derive(Debug, Clone, PartialEq, Eq)]
pub struct VaginaCandidate {
    pub uid: i64,
    pub name: String,
}

/// A player whose dick is long enough to attract the gnomes.
#[derive(Debug, Clone, PartialEq, Eq)]
pub struct GnomeVictimCandidate {
    pub uid: i64,
    pub name: String,
    pub length: i32,
}

/// A chat that the gnomes have not raided yet today.
#[derive(Debug, Clone, Copy, PartialEq, Eq, Structural)]
pub struct GnomeChat {
    pub internal_id: i64,
    pub tg_chat_id: i64,
}

} // verus!
