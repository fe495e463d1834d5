use vstd::prelude::*;

verus! {

/// The identifier of a run: a 128-bit value, written in text as 32
/// hexadecimal digits in groups of 8, 4, 4, 4 and 12.
#[derive(Clone, Copy, Debug, PartialEq, Eq, Structural, Hash)]
pub struct RunId {
    pub value: u128,
}

/// The lower-case hexadecimal digit for a value below 16.
pub open spec fn hex_digit(n: u128) -> char {
    if n == 0 {
        '0'
    } else if n == 1 {
        '1'
    } else if n == 2 {
        '2'
    } else if n == 3 {
        '3'
    } else if n == 4 {
        '4'
    } else if n == 5 {
        '5'
    } else if n == 6 {
        '6'
    } else if n == 7 {
        '7'
    } else if n == 8 {
        '8'
    } else if n == 9 {
        '9'
    } else if n == 10 {
        'a'
    } else if n == 11 {
        'b'
    } else if n == 12 {
        'c'
    } else if n == 13 {
        'd'
    } else if n == 14 {
        'e'
    } else {
        'f'
    }
}

/// The `k`-th group of four bits of `v`, counted from the most significant
/// (`0 <= k < 32`).
pub open spec fn nibble(v: u128, k: int) -> u128 {
    (v >> ((4 * (31 - k)) as u128)) & 0xf
}

/// Where the hyphenated form has a hyphen.
pub open spec fn is_hyphen_position(p: int) -> bool {
    p == 8 || p == 13 || p == 18 || p == 23
}

/// Which hexadecimal digit stands at a position that holds no hyphen.
pub open spec fn digit_index(p: int) -> int {
    if p < 8 {
        p
    } else if p < 13 {
        p - 1
    } else if p < 18 {
        p - 2
    } else if p < 23 {
        p - 3
    } else {
        p - 4
    }
}

/// The canonical hyphenated text of a 128-bit identifier: 36 characters,
/// lower-case hexadecimal digits from the most significant down, with
/// hyphens after the 8th, 12th, 16th and 20th digit.
pub open spec fn hyphenated_text(v: u128) -> Seq<char> {
    Seq::new(
        36,
        |p: int|
            if is_hyphen_position(p) {
                '-'
            } else {
                hex_digit(nibble(v, digit_index(p)))
            },
    )
}

/// The mark of a randomly generated identifier: the 13th digit is 4 and the
/// 17th is one of 8, 9, a, b.
pub open spec fn is_random_id(v: u128) -> bool {
    nibble(v, 12) == 4 && 8 <= nibble(v, 16) <= 11
}

/// A fresh random identifier from `uuid::Uuid::new_v4`, as a 128-bit value.
/// The value is drawn from the operating system's random source; of every
/// outcome the contract states only the version and variant digits that
/// `new_v4` sets.
#[verifier::external_body]
fn uuid_new_v4() -> (v: u128)
    ensures
        is_random_id(v),
{
    uuid::Uuid::new_v4().as_u128()
}

/// The text that `uuid::Uuid::hyphenated` gives for the identifier with
/// this 128-bit value: the lower-case hyphenated form.
#[verifier::external_body]
fn uuid_hyphenated(v: u128) -> (s: String)
    ensures
        s@ == hyphenated_text(v),
{
    uuid::Uuid::from_u128(v).hyphenated().to_string()
}

impl RunId {
    /// The identifier with the given 128-bit value.
    pub fn from_u128(value: u128) -> (id: RunId)
        ensures
            id.value == value,
    {
        RunId { value }
    }

    /// The 128-bit value of the identifier.
    pub fn as_u128(&self) -> (value: u128)
        ensures
            value == self.value,
    {
        self.value
    }

    /// A fresh, randomly generated identifier.
    pub fn new_v4() -> (id: RunId)
        ensures
            is_random_id(id.value),
    {
        RunId { value: uuid_new_v4() }
    }

    /// The identifier in its stored form, the hyphenated text.
    pub fn hyphenated(&self) -> (s: String)
        ensures
            s@ == hyphenated_text(self.value),
            s@.len() == 36,
    {
        uuid_hyphenated(self.value)
    }
}

} // verus!
