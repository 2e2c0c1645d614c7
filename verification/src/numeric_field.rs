//! A numeric field bound to a text box.
//!
//! The read direction of such a binding just renders the number; the
//! write direction must parse user-entered text, and that parse is the
//! one operation in these bindings that can fail. A failed parse must
//! neither abort the event loop nor corrupt the field: the edit is
//! rejected and the field keeps its last valid value.

use vstd::prelude::*;

verus! {

/// Whether a character is a decimal digit.
pub open spec fn is_digit(c: char) -> bool {
    48 <= c as u32 && c as u32 <= 57
}

/// The numeric value of a decimal digit.
pub open spec fn digit_value(c: char) -> int {
    c as u32 - 48
}

/// Whether every character of the text is a decimal digit.
pub open spec fn all_digits(s: Seq<char>) -> bool {
    forall|i: int| 0 <= i < s.len() ==> is_digit(#[trigger] s[i])
}

/// The number a digit string denotes in decimal.
pub open spec fn decimal_value(s: Seq<char>) -> int
    decreases s.len(),
{
    if s.len() == 0 {
        0
    } else {
        decimal_value(s.drop_last()) * 10 + digit_value(s.last())
    }
}

/// Whether the text is a well-formed decimal numeral whose value fits
/// the field: one or more digits, nothing else, value at most
/// `u32::MAX`.
pub open spec fn valid_decimal_u32(s: Seq<char>) -> bool {
    s.len() > 0 && all_digits(s) && decimal_value(s) <= u32::MAX
}

proof fn lemma_decimal_value_nonneg(s: Seq<char>)
    requires
        all_digits(s),
    ensures
        decimal_value(s) >= 0,
    decreases s.len(),
{
    if s.len() > 0 {
        assert(all_digits(s.drop_last()));
        lemma_decimal_value_nonneg(s.drop_last());
    }
}

/// A digit string's value only grows as digits are appended: any
/// prefix denotes at most the whole string's value.
proof fn lemma_decimal_value_prefix_le(s: Seq<char>, n: int)
    requires
        all_digits(s),
        0 <= n <= s.len(),
    ensures
        decimal_value(s.subrange(0, n)) <= decimal_value(s),
    decreases s.len() - n,
{
    if n == s.len() {
        assert(s.subrange(0, n) =~= s);
    } else {
        let t = s.drop_last();
        assert(all_digits(t));
        lemma_decimal_value_nonneg(t);
        assert(s.subrange(0, n) =~= t.subrange(0, n));
        lemma_decimal_value_prefix_le(t, n);
    }
}

/// Parse a text box's content as a decimal numeral. Returns the
/// denoted value exactly when the text is one or more decimal digits
/// denoting a value that fits, and `None` otherwise — on any other
/// character, on empty text, and on a value past `u32::MAX`.
pub fn parse_u32(s: &str) -> (r: Option<u32>)
    ensures
        r == if valid_decimal_u32(s@) {
            Some(decimal_value(s@) as u32)
        } else {
            None::<u32>
        },
{
    let n: usize = s.unicode_len();
    if n == 0 {
        return None;
    }
    let mut acc: u32 = 0;
    let mut i: usize = 0;
    while i < n
        invariant
            n == s@.len(),
            i <= n,
            all_digits(s@.subrange(0, i as int)),
            acc == decimal_value(s@.subrange(0, i as int)),
        decreases n - i,
    {
        let c = s.get_char(i);
        let cv: u32 = c as u32;
        if cv < 48 || cv > 57 {
            return None;
        }
        let d: u32 = cv - 48;
        let wide: u64 = acc as u64 * 10 + d as u64;
        proof {
            assert(s@.subrange(0, i + 1).drop_last() =~= s@.subrange(0, i as int));
            assert(s@.subrange(0, i + 1).last() == s@[i as int]);
        }
        if wide > u32::MAX as u64 {
            proof {
                if all_digits(s@) {
                    lemma_decimal_value_prefix_le(s@, i + 1);
                }
            }
            return None;
        }
        acc = wide as u32;
        i = i + 1;
    }
    proof {
        assert(s@.subrange(0, n as int) =~= s@);
    }
    Some(acc)
}

/// The value a numeric field holds after an edit: the parsed value
/// when the text is a valid numeral, the last valid value otherwise.
pub open spec fn updated_field(current: u32, text: Seq<char>) -> u32 {
    if valid_decimal_u32(text) {
        decimal_value(text) as u32
    } else {
        current
    }
}

/// The write half of a numeric field's projection: fold the text the
/// user typed back into the bound field. Text that is not a valid
/// numeral is rejected and the field keeps its last valid value, so a
/// bad edit can neither fault nor corrupt the state.
pub fn write_field(field: &mut u32, text: &str)
    ensures
        *final(field) == updated_field(*old(field), text@),
{
    match parse_u32(text) {
        Some(value) => {
            *field = value;
        },
        None => {},
    }
}

} // verus!
