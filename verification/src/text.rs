//! Text as the standard library reads and writes it: Unicode white space,
//! trimming, splitting at a delimiter, and decimal integers.

use vstd::prelude::*;

verus! {

/// The Unicode `White_Space` property, which `char::is_whitespace` and
/// `str::trim` go by.
pub open spec fn is_white_space(c: char) -> bool {
    let n = c as u32;
    ||| 0x9 <= n <= 0xd
    ||| n == 0x20
    ||| n == 0x85
    ||| n == 0xa0
    ||| n == 0x1680
    ||| 0x2000 <= n <= 0x200a
    ||| n == 0x2028
    ||| n == 0x2029
    ||| n == 0x202f
    ||| n == 0x205f
    ||| n == 0x3000
}

/// `s` without its leading white space.
pub open spec fn trim_start(s: Seq<char>) -> Seq<char>
    decreases s.len(),
{
    if s.len() > 0 && is_white_space(s[0]) {
        trim_start(s.drop_first())
    } else {
        s
    }
}

/// `s` without its trailing white space.
pub open spec fn trim_end(s: Seq<char>) -> Seq<char>
    decreases s.len(),
{
    if s.len() > 0 && is_white_space(s.last()) {
        trim_end(s.drop_last())
    } else {
        s
    }
}

/// `s` without its leading and trailing white space.
pub open spec fn trimmed(s: Seq<char>) -> Seq<char> {
    trim_end(trim_start(s))
}

/// `d` stands in `s` from the position `i` on.
pub open spec fn occurs_at(s: Seq<char>, d: Seq<char>, i: int) -> bool {
    &&& 0 <= i
    &&& i + d.len() <= s.len()
    &&& s.subrange(i, i + d.len()) == d
}

/// The first position at or after `i` where `d` stands in `s`.
pub open spec fn first_occurrence_from(s: Seq<char>, d: Seq<char>, i: int) -> Option<int>
    decreases s.len() + 1 - i,
{
    if i < 0 || i + d.len() > s.len() {
        None
    } else if occurs_at(s, d, i) {
        Some(i)
    } else {
        first_occurrence_from(s, d, i + 1)
    }
}

/// The first position where `d` stands in `s`.
pub open spec fn first_occurrence(s: Seq<char>, d: Seq<char>) -> Option<int> {
    first_occurrence_from(s, d, 0)
}

/// An ASCII decimal digit.
pub open spec fn is_ascii_digit(c: char) -> bool {
    48 <= (c as u32) <= 57
}

/// The value of an ASCII decimal digit.
pub open spec fn digit_value(c: char) -> nat {
    ((c as u32) - 48) as nat
}

/// The ASCII digit of a value below ten.
pub open spec fn digit_char(d: nat) -> char {
    seq!['0', '1', '2', '3', '4', '5', '6', '7', '8', '9'][d as int]
}

/// A nonempty run of ASCII decimal digits.
pub open spec fn is_digit_text(s: Seq<char>) -> bool {
    &&& s.len() > 0
    &&& forall|i: int| 0 <= i < s.len() ==> #[trigger] is_ascii_digit(s[i])
}

/// The number that a run of decimal digits writes, most significant first.
pub open spec fn digits_value(s: Seq<char>) -> nat
    decreases s.len(),
{
    if s.len() == 0 {
        0
    } else {
        digits_value(s.drop_last()) * 10 + digit_value(s.last())
    }
}

/// The number that `FromStr` of an unsigned integer type reads from `s`,
/// before it checks the type's range: an optional `+`, then at least one
/// ASCII digit, and nothing else.
pub open spec fn unsigned_text_value(s: Seq<char>) -> Option<int> {
    let body = if s.len() > 0 && s[0] == '+' {
        s.drop_first()
    } else {
        s
    };
    if is_digit_text(body) {
        Some(digits_value(body) as int)
    } else {
        None
    }
}

/// The number that `FromStr` of a signed integer type reads from `s`,
/// before it checks the type's range: an optional `+` or `-`, then at
/// least one ASCII digit, and nothing else.
pub open spec fn signed_text_value(s: Seq<char>) -> Option<int> {
    if s.len() > 0 && s[0] == '-' {
        if is_digit_text(s.drop_first()) {
            Some(-(digits_value(s.drop_first()) as int))
        } else {
            None
        }
    } else {
        unsigned_text_value(s)
    }
}

/// What `str::parse::<i32>` yields, as an `Option`.
pub open spec fn i32_from_text(s: Seq<char>) -> Option<i32> {
    match signed_text_value(s) {
        Some(v) => if i32::MIN <= v <= i32::MAX {
            Some(v as i32)
        } else {
            None
        },
        None => None,
    }
}

/// What `str::parse::<u64>` yields, as an `Option`.
pub open spec fn u64_from_text(s: Seq<char>) -> Option<u64> {
    match unsigned_text_value(s) {
        Some(v) => if 0 <= v <= u64::MAX {
            Some(v as u64)
        } else {
            None
        },
        None => None,
    }
}

/// The decimal writing of `n`, as `Display` prints an unsigned integer:
/// no sign, no leading zeros.
pub open spec fn decimal_text(n: nat) -> Seq<char>
    decreases n,
{
    if n < 10 {
        seq![digit_char(n)]
    } else {
        decimal_text(n / 10).push(digit_char(n % 10))
    }
}

/// `str::trim` takes off the leading and trailing white space.
pub assume_specification<'a>[ str::trim ](s: &'a str) -> (res: &'a str)
    ensures
        res@ == trimmed(s@),
;

/// `str::split_once` with a string delimiter: the text before and after the
/// first occurrence of the delimiter, or nothing where it does not occur.
#[verifier::external_body]
pub(crate) fn split_once_str<'a>(s: &'a str, delimiter: &str) -> (res: Option<(&'a str, &'a str)>)
    ensures
        match first_occurrence(s@, delimiter@) {
            Some(i) => res matches Some(parts) && parts.0@ == s@.take(i) && parts.1@ == s@.skip(
                i + delimiter@.len(),
            ),
            None => res is None,
        },
{
    s.split_once(delimiter)
}

/// `str::parse::<i32>`, with the error dropped: an optional sign and ASCII
/// digits whose value fits in an `i32`.
#[verifier::external_body]
pub(crate) fn parse_i32(s: &str) -> (res: Option<i32>)
    ensures
        res == i32_from_text(s@),
{
    s.parse::<i32>().ok()
}

/// `str::parse::<u64>`, with the error dropped: an optional `+` and ASCII
/// digits whose value fits in a `u64`.
#[verifier::external_body]
pub(crate) fn parse_u64(s: &str) -> (res: Option<u64>)
    ensures
        res == u64_from_text(s@),
{
    s.parse::<u64>().ok()
}

/// `u64::to_string`: the decimal writing of the number.
#[verifier::external_body]
pub(crate) fn u64_to_text(n: u64) -> (res: String)
    ensures
        res@ == decimal_text(n as nat),
{
    n.to_string()
}

/// Each digit character has the value it was made from.
pub proof fn lemma_digit_char(d: nat)
    requires
        d < 10,
    ensures
        is_ascii_digit(digit_char(d)),
        digit_value(digit_char(d)) == d,
{
    let digits = seq!['0', '1', '2', '3', '4', '5', '6', '7', '8', '9'];
    assert(digits[0] == '0' && digits[1] == '1' && digits[2] == '2' && digits[3] == '3');
    assert(digits[4] == '4' && digits[5] == '5' && digits[6] == '6' && digits[7] == '7');
    assert(digits[8] == '8' && digits[9] == '9');
}

/// The decimal writing of a number is a run of digits that reads back as
/// that number.
pub proof fn lemma_decimal_text(n: nat)
    ensures
        is_digit_text(decimal_text(n)),
        digits_value(decimal_text(n)) == n,
    decreases n,
{
    if n < 10 {
        lemma_digit_char(n);
        let t = decimal_text(n);
        assert(t.drop_last() =~= Seq::<char>::empty());
        assert(digits_value(t) == digits_value(t.drop_last()) * 10 + digit_value(t.last()));
    } else {
        lemma_decimal_text(n / 10);
        lemma_digit_char(n % 10);
        let t = decimal_text(n);
        assert(t.drop_last() =~= decimal_text(n / 10));
        assert(t.last() == digit_char(n % 10));
        assert(digits_value(t) == digits_value(decimal_text(n / 10)) * 10 + (n % 10));
        assert((n / 10) * 10 + n % 10 == n);
        assert forall|i: int| 0 <= i < t.len() implies #[trigger] is_ascii_digit(t[i]) by {
            if i < t.len() - 1 {
                assert(t[i] == decimal_text(n / 10)[i]);
            }
        }
    }
}

/// `FromStr` of an unsigned type reads back the decimal writing of a number.
pub proof fn lemma_decimal_text_reads_back(n: nat)
    ensures
        unsigned_text_value(decimal_text(n)) == Some(n as int),
{
    lemma_decimal_text(n);
    let t = decimal_text(n);
    assert(is_ascii_digit(t[0]));
    assert(t[0] != '+');
}

/// The first occurrence of a single character is the first position that
/// holds it.
pub proof fn lemma_first_char_from(s: Seq<char>, c: char, i: int, k: int)
    requires
        0 <= i <= k <= s.len(),
        forall|j: int| i <= j < k ==> s[j] != c,
        k < s.len() ==> s[k] == c,
    ensures
        first_occurrence_from(s, seq![c], i) == (if k < s.len() {
            Some(k)
        } else {
            None::<int>
        }),
    decreases k - i,
{
    let d = seq![c];
    if i == k {
        if k < s.len() {
            assert(s.subrange(k, k + 1) =~= d);
        }
    } else {
        if occurs_at(s, d, i) {
            assert(s.subrange(i, i + 1)[0] == s[i]);
        }
        lemma_first_char_from(s, c, i + 1, k);
    }
}

/// The first occurrence of a single character in a text.
pub proof fn lemma_first_char(s: Seq<char>, c: char, k: int)
    requires
        0 <= k <= s.len(),
        forall|j: int| 0 <= j < k ==> s[j] != c,
        k < s.len() ==> s[k] == c,
    ensures
        first_occurrence(s, seq![c]) == (if k < s.len() {
            Some(k)
        } else {
            None::<int>
        }),
{
    lemma_first_char_from(s, c, 0, k);
}

} // verus!
