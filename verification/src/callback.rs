//! The data that the button of a `/sex` offer carries: the initiator and
//! the sharpness of the offered vagina, written as `"{initiator}:{sharpness}"`.

use vstd::prelude::*;
use vstd::string::*;
use crate::text::{
    decimal_text, first_occurrence, is_ascii_digit, lemma_decimal_text, lemma_decimal_text_reads_back,
    lemma_first_char, parse_u64, split_once_str, u64_from_text, u64_to_text, unsigned_text_value,
};

verus! {

/// A part of the data of a button.
#[derive(Debug, Clone, Copy, PartialEq, Eq, Structural)]
pub enum CallbackPart {
    Uid,
    Sharpness,
}

/// Why the data of a button could not be read.
#[derive(Debug, Clone, Copy, PartialEq, Eq, Structural)]
pub enum InvalidCallbackData {
    /// The part is not there.
    Missing(CallbackPart),
    /// The part is not a number of its type.
    Unparsable(CallbackPart),
}

/// The data of the button of a `/sex` offer.
#[derive(Debug, Clone, Copy, PartialEq, Eq, Structural)]
pub struct SexCallbackData {
    /// The Telegram id of the player who offers the duel.
    pub initiator: u64,
    /// The sharpness of the offered vagina, as the offer saw it.
    pub sharpness: u16,
}

/// The text of the data of a button.
pub open spec fn callback_text(data: SexCallbackData) -> Seq<char> {
    decimal_text(data.initiator as nat) + seq![':'] + decimal_text(data.sharpness as nat)
}

/// The first part of a text split at `:`.
pub open spec fn first_part(s: Seq<char>) -> Seq<char> {
    match first_occurrence(s, seq![':']) {
        Some(i) => s.take(i),
        None => s,
    }
}

/// The second part of a text split at `:`, where there is one.
pub open spec fn second_part(s: Seq<char>) -> Option<Seq<char>> {
    match first_occurrence(s, seq![':']) {
        Some(i) => Some(first_part(s.skip(i + 1))),
        None => None,
    }
}

/// What `FromStr` of a `u16` yields, as an `Option`.
pub open spec fn u16_from_text(s: Seq<char>) -> Option<u16> {
    match unsigned_text_value(s) {
        Some(v) => if 0 <= v <= u16::MAX {
            Some(v as u16)
        } else {
            None
        },
        None => None,
    }
}

/// What the data of a button reads as: the initiator from the first part,
/// the sharpness from the second, further parts ignored.
pub open spec fn spec_parse_callback(s: Seq<char>) -> Result<SexCallbackData, InvalidCallbackData> {
    match u64_from_text(first_part(s)) {
        None => Err(InvalidCallbackData::Unparsable(CallbackPart::Uid)),
        Some(initiator) => match second_part(s) {
            None => Err(InvalidCallbackData::Missing(CallbackPart::Sharpness)),
            Some(part) => match u16_from_text(part) {
                None => Err(InvalidCallbackData::Unparsable(CallbackPart::Sharpness)),
                Some(sharpness) => Ok(SexCallbackData { initiator, sharpness }),
            },
        },
    }
}

/// Splits off the text before the first `:`, and what follows it.
fn split_part(s: &str) -> (res: (&str, Option<&str>))
    ensures
        res.0@ == first_part(s@),
        match first_occurrence(s@, seq![':']) {
            Some(i) => res.1 matches Some(rest) && rest@ == s@.skip(i + 1),
            None => res.1 is None,
        },
{
    proof {
        reveal_strlit(":");
        assert(":"@ =~= seq![':']);
    }
    match split_once_str(s, ":") {
        Some((part, rest)) => (part, Some(rest)),
        None => (s, None),
    }
}

/// The data of a `/sex` button without its prefix: the text after the first
/// `:`, where the text before it is the prefix `sex`.
pub open spec fn spec_sex_payload(data: Seq<char>) -> Option<Seq<char>> {
    match first_occurrence(data, seq![':']) {
        Some(i) => if data.take(i) == "sex"@ {
            Some(data.skip(i + 1))
        } else {
            None
        },
        None => None,
    }
}

/// Whether two texts are the same.
fn same_text(a: &str, b: &str) -> (res: bool)
    ensures
        res == (a@ == b@),
{
    let n = a.unicode_len();
    if n != b.unicode_len() {
        return false;
    }
    let mut i: usize = 0;
    while i < n
        invariant
            n == a@.len() == b@.len(),
            0 <= i <= n,
            forall|j: int| 0 <= j < i ==> a@[j] == b@[j],
        decreases n - i,
    {
        if a.get_char(i) != b.get_char(i) {
            return false;
        }
        i = i + 1;
    }
    assert(a@ =~= b@);
    true
}

/// Takes the prefix off the data of a button: the payload of a `/sex`
/// button, or nothing for any other button.
pub fn sex_callback_payload(data: &str) -> (res: Option<&str>)
    ensures
        match spec_sex_payload(data@) {
            Some(payload) => res matches Some(p) && p@ == payload,
            None => res is None,
        },
{
    let (prefix, rest) = split_part(data);
    match rest {
        Some(rest) => {
            if same_text(prefix, SexCallbackData::prefix()) {
                Some(rest)
            } else {
                None
            }
        },
        None => None,
    }
}

impl SexCallbackData {
    /// The prefix that marks the buttons of `/sex` offers.
    pub fn prefix() -> (res: &'static str)
        ensures
            res@ == "sex"@,
    {
        "sex"
    }

    /// Writes the data as `"{initiator}:{sharpness}"`.
    pub fn to_string(&self) -> (res: String)
        ensures
            res@ == callback_text(*self),
    {
        let mut text = u64_to_text(self.initiator);
        text.append(":");
        let sharpness = u64_to_text(self.sharpness as u64);
        text.append(sharpness.as_str());
        proof {
            reveal_strlit(":");
        }
        text
    }

    /// Reads the data back from the text of a button.
    pub fn try_from(data: String) -> (res: Result<SexCallbackData, InvalidCallbackData>)
        ensures
            res == spec_parse_callback(data@),
    {
        let (first, rest) = split_part(data.as_str());
        let initiator = match parse_u64(first) {
            Some(v) => v,
            None => return Err(InvalidCallbackData::Unparsable(CallbackPart::Uid)),
        };
        let rest = match rest {
            Some(rest) => rest,
            None => return Err(InvalidCallbackData::Missing(CallbackPart::Sharpness)),
        };
        let (second, _) = split_part(rest);
        let sharpness = match parse_u64(second) {
            Some(v) => if v <= 65535 {
                v as u16
            } else {
                return Err(InvalidCallbackData::Unparsable(CallbackPart::Sharpness));
            },
            None => return Err(InvalidCallbackData::Unparsable(CallbackPart::Sharpness)),
        };
        Ok(SexCallbackData { initiator, sharpness })
    }
}

/// A decimal writing holds no `:`.
proof fn lemma_decimal_has_no_colon(n: nat)
    ensures
        forall|j: int| 0 <= j < decimal_text(n).len() ==> decimal_text(n)[j] != ':',
{
    lemma_decimal_text(n);
    assert forall|j: int| 0 <= j < decimal_text(n).len() implies decimal_text(n)[j] != ':' by {
        assert(is_ascii_digit(decimal_text(n)[j]));
    }
}

/// The data of a button reads back as the data it was written from.
pub proof fn lemma_callback_round_trip(data: SexCallbackData)
    ensures
        spec_parse_callback(callback_text(data)) == Ok::<SexCallbackData, InvalidCallbackData>(data),
{
    let a = decimal_text(data.initiator as nat);
    let b = decimal_text(data.sharpness as nat);
    let s = callback_text(data);
    lemma_decimal_has_no_colon(data.initiator as nat);
    lemma_decimal_has_no_colon(data.sharpness as nat);
    assert forall|j: int| 0 <= j < a.len() implies s[j] != ':' by {
        assert(s[j] == a[j]);
    }
    assert(s[a.len() as int] == ':');
    lemma_first_char(s, ':', a.len() as int);
    assert(s.take(a.len() as int) =~= a);
    assert(s.skip(a.len() as int + 1) =~= b);
    lemma_first_char(b, ':', b.len() as int);
    lemma_decimal_text_reads_back(data.initiator as nat);
    lemma_decimal_text_reads_back(data.sharpness as nat);
}

} // verus!
