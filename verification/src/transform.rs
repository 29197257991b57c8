//! Conversions of plain values into the value of a typed attribute cell.

use vstd::prelude::*;
use crate::text::{push_signed_decimal, signed_decimal};

verus! {

/// Whether `c` is one of the ten decimal digits.
pub open spec fn is_digit(c: char) -> bool {
    '0' <= c <= '9'
}

/// The number that a sequence of decimal digits writes, `None` where a
/// character is no digit. The empty sequence writes zero.
pub open spec fn digits_value(s: Seq<char>) -> Option<nat>
    decreases s.len(),
{
    if s.len() == 0 {
        Some(0)
    } else {
        match digits_value(s.drop_last()) {
            Some(high) => if is_digit(s.last()) {
                Some((high * 10 + (s.last() as int - '0' as int)) as nat)
            } else {
                None
            },
            None => None,
        }
    }
}

/// The number that a decimal numeral writes: one sign at most, `+` or `-`,
/// and then one digit at least and nothing but digits.
pub open spec fn numeral_value(s: Seq<char>) -> Option<int> {
    if s.len() == 0 {
        None
    } else if s[0] == '-' || s[0] == '+' {
        if s.len() == 1 {
            None
        } else {
            match digits_value(s.skip(1)) {
                Some(v) => Some(
                    if s[0] == '-' {
                        -(v as int)
                    } else {
                        v as int
                    },
                ),
                None => None,
            }
        }
    } else {
        match digits_value(s) {
            Some(v) => Some(v as int),
            None => None,
        }
    }
}

/// The number that a numeral writes, where it lies between `low` and `high`.
pub open spec fn numeral_within(s: Seq<char>, low: int, high: int) -> Option<int> {
    match numeral_value(s) {
        Some(v) => if low <= v <= high {
            Some(v)
        } else {
            None
        },
        None => None,
    }
}

/// `str::parse::<i32>` of the standard library: it fails unless the text
/// is a decimal numeral, with one sign at most, whose number fits the type,
/// and gives that number. Its failure is `None` here.
#[verifier::external_body]
fn parse_i32(s: &str) -> (r: Option<i32>)
    ensures
        r is Some <==> numeral_within(s@, i32::MIN as int, i32::MAX as int) is Some,
        r is Some ==> r->Some_0 as int == numeral_within(
            s@,
            i32::MIN as int,
            i32::MAX as int,
        )->Some_0,
{
    s.parse::<i32>().ok()
}

/// `str::parse::<i64>` of the standard library: it fails unless the text
/// is a decimal numeral, with one sign at most, whose number fits the type,
/// and gives that number. Its failure is `None` here.
#[verifier::external_body]
fn parse_i64(s: &str) -> (r: Option<i64>)
    ensures
        r is Some <==> numeral_within(s@, i64::MIN as int, i64::MAX as int) is Some,
        r is Some ==> r->Some_0 as int == numeral_within(
            s@,
            i64::MIN as int,
            i64::MAX as int,
        )->Some_0,
{
    s.parse::<i64>().ok()
}

/// A value that can be turned into the content of a cell of type `T`.
pub trait Transform<T>: Sized {
    /// Whether `r` is what this value turns into.
    spec fn transforms(self, r: Option<T>) -> bool;

    fn transform(self) -> (r: Option<T>)
        ensures
            self.transforms(r),
    ;
}

/// A value is the content of a cell of its own type.
impl<T> Transform<T> for T {
    open spec fn transforms(self, r: Option<T>) -> bool {
        r == Some(self)
    }

    fn transform(self) -> (r: Option<T>) {
        Some(self)
    }
}

/// A text is the number that it writes in decimal, and nothing where it
/// writes none that fits.
impl Transform<i32> for String {
    open spec fn transforms(self, r: Option<i32>) -> bool {
        match numeral_within(self@, i32::MIN as int, i32::MAX as int) {
            Some(v) => r is Some && r->Some_0 as int == v,
            None => r is None,
        }
    }

    fn transform(self) -> (r: Option<i32>) {
        parse_i32(self.as_str())
    }
}

/// A text is the number that it writes in decimal, and nothing where it
/// writes none that fits.
impl Transform<i64> for String {
    open spec fn transforms(self, r: Option<i64>) -> bool {
        match numeral_within(self@, i64::MIN as int, i64::MAX as int) {
            Some(v) => r is Some && r->Some_0 as int == v,
            None => r is None,
        }
    }

    fn transform(self) -> (r: Option<i64>) {
        parse_i64(self.as_str())
    }
}

/// A number is its decimal numeral.
impl Transform<String> for i32 {
    open spec fn transforms(self, r: Option<String>) -> bool {
        r is Some && r->Some_0@ == signed_decimal(self as int)
    }

    fn transform(self) -> (r: Option<String>) {
        let mut out = String::new();
        push_signed_decimal(&mut out, self);
        Some(out)
    }
}

} // verus!
