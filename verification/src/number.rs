//! Numbers as they are written: indices in digits, coordinates as decimal
//! literals.

use vstd::prelude::*;
use vstd::string::StrSliceExecFns;
use vstd::string::StringExecFns;

verus! {

/// Whether `c` is one of the ten ASCII digits.
pub open spec fn is_digit(c: char) -> bool {
    '0' <= c <= '9'
}

/// Whether every character of `s` is an ASCII digit.
pub open spec fn all_digits(s: Seq<char>) -> bool {
    forall|i: int| 0 <= i < s.len() ==> is_digit(#[trigger] s[i])
}

/// The number that the digits of `s` write in base ten.
pub open spec fn decimal_value(s: Seq<char>) -> nat
    decreases s.len(),
{
    if s.len() == 0 {
        0
    } else {
        (decimal_value(s.drop_last()) * 10 + (s.last() as int - '0' as int)) as nat
    }
}

/// The number that `s` writes, where `s` is a non-empty run of ASCII digits
/// whose value a `usize` can hold.
pub open spec fn index_of_text(s: Seq<char>) -> Option<usize> {
    if s.len() > 0 && all_digits(s) && decimal_value(s) <= usize::MAX {
        Some(decimal_value(s) as usize)
    } else {
        None
    }
}

/// A longer run of digits writes no smaller a number than its beginning does.
proof fn lemma_decimal_value_grows(s: Seq<char>, n: int)
    requires
        all_digits(s),
        0 <= n <= s.len(),
    ensures
        decimal_value(s.take(n)) <= decimal_value(s),
    decreases s.len() - n,
{
    if n < s.len() {
        lemma_decimal_value_grows(s, n + 1);
        assert(s.take(n + 1).drop_last() =~= s.take(n));
    } else {
        assert(s.take(n) =~= s);
    }
}

/// Reads a non-negative whole number written in ASCII digits.
pub fn parse_index(text: &str) -> (r: Option<usize>)
    ensures
        r == index_of_text(text@),
{
    let n = text.unicode_len();
    if n == 0 {
        return None;
    }
    let mut value: usize = 0;
    let mut i: usize = 0;
    while i < n
        invariant
            i <= n,
            n == text@.len(),
            all_digits(text@.take(i as int)),
            value == decimal_value(text@.take(i as int)),
        decreases n - i,
    {
        let c = text.get_char(i);
        assert(text@.take(i as int + 1).drop_last() =~= text@.take(i as int));
        if c < '0' || c > '9' {
            return None;
        }
        let digit: usize = (c as u32 - '0' as u32) as usize;
        let next = match value.checked_mul(10) {
            Some(scaled) => scaled.checked_add(digit),
            None => None,
        };
        match next {
            Some(next) => {
                value = next;
            },
            None => {
                proof {
                    if all_digits(text@) {
                        lemma_decimal_value_grows(text@, i as int + 1);
                    }
                }
                return None;
            },
        }
        i += 1;
    }
    assert(text@.take(n as int) =~= text@);
    Some(value)
}

/// Whether `s` is a decimal literal: an optional `-`, one or more ASCII
/// digits, a `.`, and one or more ASCII digits.
pub open spec fn is_decimal(s: Seq<char>) -> bool {
    let body = unsigned_part(s);
    exists|dot: int| #[trigger] splits_at(body, dot)
}

/// `s` without a leading `-`.
pub open spec fn unsigned_part(s: Seq<char>) -> Seq<char> {
    if s.len() > 0 && s[0] == '-' {
        s.skip(1)
    } else {
        s
    }
}

/// Whether `body` is digits, a `.` at place `dot`, and digits again, with a
/// digit on either side.
pub open spec fn splits_at(body: Seq<char>, dot: int) -> bool {
    &&& 0 < dot < body.len() - 1
    &&& body[dot] == '.'
    &&& forall|i: int| 0 <= i < body.len() && i != dot ==> is_digit(#[trigger] body[i])
}

/// A number written as a decimal literal, kept as it was written.
#[derive(Debug, PartialEq, Eq)]
pub struct Decimal {
    text: String,
}

impl View for Decimal {
    type V = Seq<char>;

    closed spec fn view(&self) -> Seq<char> {
        self.text@
    }
}

impl Clone for Decimal {
    fn clone(&self) -> (copy: Self)
        ensures
            copy@ == self@,
    {
        proof {
            use_type_invariant(self);
        }
        Decimal { text: self.text.clone() }
    }
}

impl Decimal {
    #[verifier::type_invariant]
    spec fn well_formed(self) -> bool {
        is_decimal(self.text@)
    }

    /// The literal `1.0`.
    pub fn one() -> (d: Self)
        ensures
            d@ == "1.0"@,
    {
        proof {
            reveal_strlit("1.0");
            assert(splits_at(unsigned_part("1.0"@), 1));
        }
        Decimal { text: String::from_str("1.0") }
    }

    /// The literal `0.0`.
    pub fn zero() -> (d: Self)
        ensures
            d@ == "0.0"@,
    {
        proof {
            reveal_strlit("0.0");
            assert(splits_at(unsigned_part("0.0"@), 1));
        }
        Decimal { text: String::from_str("0.0") }
    }

    /// The literal `-1.0`.
    pub fn minus_one() -> (d: Self)
        ensures
            d@ == "-1.0"@,
    {
        proof {
            reveal_strlit("-1.0");
            assert(splits_at(unsigned_part("-1.0"@), 1));
        }
        Decimal { text: String::from_str("-1.0") }
    }

    /// Accepts `text` where it is a decimal literal.
    pub fn parse(text: &str) -> (r: Option<Self>)
        ensures
            r is Some <==> is_decimal(text@),
            r matches Some(d) ==> d@ == text@,
    {
        let n = text.unicode_len();
        let start: usize = if n > 0 && text.get_char(0) == '-' {
            1
        } else {
            0
        };
        let ghost body = unsigned_part(text@);
        // the digits before the point
        let mut i: usize = start;
        while i < n && is_ascii_digit(text.get_char(i))
            invariant
                start <= i <= n,
                n == text@.len(),
                forall|j: int| start <= j < i ==> is_digit(#[trigger] text@[j]),
            decreases n - i,
        {
            i += 1;
        }
        if i == start || i >= n || text.get_char(i) != '.' {
            assert(!is_decimal(text@)) by {
                assert forall|dot: int| !#[trigger] splits_at(body, dot) by {
                    if splits_at(body, dot) && dot > i - start {
                        assert(body[i - start] == text@[i as int]);
                    }
                }
            }
            return None;
        }
        let dot = i;
        i += 1;
        while i < n && is_ascii_digit(text.get_char(i))
            invariant
                dot < i <= n,
                n == text@.len(),
                forall|j: int| dot < j < i ==> is_digit(#[trigger] text@[j]),
            decreases n - i,
        {
            i += 1;
        }
        if i == dot + 1 || i < n {
            assert(!is_decimal(text@)) by {
                assert forall|other: int| !#[trigger] splits_at(body, other) by {
                    if splits_at(body, other) {
                        if other != dot - start {
                            assert(is_digit(body[dot - start]));
                        } else if i < n {
                            assert(is_digit(body[i - start]));
                        }
                    }
                }
            }
            return None;
        }
        assert(splits_at(body, dot - start));
        Some(Decimal { text: String::from_str(text) })
    }

    /// The literal as text.
    pub fn as_str(&self) -> (text: &str)
        ensures
            text@ == self@,
            is_decimal(text@),
    {
        proof {
            use_type_invariant(self);
        }
        self.text.as_str()
    }
}

/// Whether `c` is one of the ten ASCII digits.
fn is_ascii_digit(c: char) -> (b: bool)
    ensures
        b == is_digit(c),
{
    c >= '0' && c <= '9'
}

} // verus!
