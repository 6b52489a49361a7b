use vstd::prelude::*;
use crate::channel::{MessageChannel, MessageView, after_receive, received};

verus! {

/// The delay between two readings, in seconds, when no valid setting came.
pub const DEFAULT_DELAY_SECS: u64 = 5;

/// Whether `b` is an ASCII decimal digit.
pub open spec fn is_digit(b: u8) -> bool {
    48 <= b && b <= 57
}

/// The number that the decimal digits `s` write, most significant first.
pub open spec fn decimal_value(s: Seq<u8>) -> nat
    decreases s.len(),
{
    if s.len() == 0 {
        0
    } else {
        decimal_value(s.drop_last()) * 10 + (s.last() - 48) as nat
    }
}

/// Whether every byte of `d` is a decimal digit.
pub open spec fn all_digits(d: Seq<u8>) -> bool {
    forall|i: int| 0 <= i < d.len() ==> is_digit(#[trigger] d[i])
}

/// The text `s` without its leading `+`, if it has one.
pub open spec fn unsigned_part(s: Seq<u8>) -> Seq<u8> {
    if s.len() > 0 && s[0] == 43 {
        s.drop_first()
    } else {
        s
    }
}

/// The unsigned 64-bit number that the text `s` writes in decimal: an
/// optional `+`, then one or more digits, with a value that fits. Nothing
/// else is a number.
pub open spec fn parsed_u64(s: Seq<u8>) -> Option<u64> {
    let digits = unsigned_part(s);
    if digits.len() > 0 && all_digits(digits) && decimal_value(digits) <= u64::MAX {
        Some(decimal_value(digits) as u64)
    } else {
        None
    }
}

/// The delay that a configuration payload sets: the number it writes, or
/// the default when it writes none.
pub open spec fn delay_of(payload: Seq<u8>) -> u64 {
    match parsed_u64(payload) {
        Some(v) => v,
        None => DEFAULT_DELAY_SECS,
    }
}

/// Appending digits never makes the value smaller.
proof fn lemma_decimal_grows(s: Seq<u8>, i: int, j: int)
    requires
        0 <= i <= j <= s.len(),
        all_digits(s),
    ensures
        decimal_value(s.subrange(0, i)) <= decimal_value(s.subrange(0, j)),
    decreases j - i,
{
    if i < j {
        lemma_decimal_grows(s, i, j - 1);
        assert(s.subrange(0, j).drop_last() =~= s.subrange(0, j - 1));
    }
}

/// Reads the unsigned number that `s` writes in decimal, as `str::parse`
/// reads a `u64`: an optional `+`, then digits only, within range.
pub fn parse_u64(s: &Vec<u8>) -> (r: Option<u64>)
    ensures
        r == parsed_u64(s@),
{
    let start: usize = if s.len() > 0 && s[0] == 43u8 { 1 } else { 0 };
    let ghost digits = unsigned_part(s@);
    assert(digits =~= s@.subrange(start as int, s@.len() as int));
    if start == s.len() {
        return None;
    }
    let mut value: u64 = 0;
    let mut i: usize = start;
    while i < s.len()
        invariant
            start <= i <= s.len(),
            digits =~= s@.subrange(start as int, s@.len() as int),
            digits == unsigned_part(s@),
            forall|k: int| 0 <= k < i - start ==> is_digit(#[trigger] digits[k]),
            value as nat == decimal_value(digits.subrange(0, i - start)),
        decreases s.len() - i,
    {
        let b = s[i];
        if b < 48u8 || b > 57u8 {
            assert(!is_digit(digits[i - start]));
            return None;
        }
        let d = (b - 48u8) as u64;
        assert(digits.subrange(0, i + 1 - start).drop_last() =~= digits.subrange(0, i - start));
        if value > (u64::MAX - d) / 10 {
            assert(decimal_value(digits.subrange(0, i + 1 - start)) > u64::MAX) by (nonlinear_arith)
                requires
                    value > (u64::MAX - d) / 10,
                    decimal_value(digits.subrange(0, i + 1 - start)) == value * 10 + d,
                    d <= 9;
            proof {
                if all_digits(digits) {
                    lemma_decimal_grows(digits, i + 1 - start, digits.len() as int);
                    assert(digits.subrange(0, digits.len() as int) =~= digits);
                }
            }
            return None;
        }
        assert(value * 10 + d <= u64::MAX) by (nonlinear_arith)
            requires value <= (u64::MAX - d) / 10, d <= 9;
        value = value * 10 + d;
        i = i + 1;
    }
    assert(digits.subrange(0, digits.len() as int) =~= digits);
    Some(value)
}

/// The delay that a configuration payload sets: the number it writes, or
/// the default when it writes none.
pub fn delay_from_payload(payload: &Vec<u8>) -> (r: u64)
    ensures
        r == delay_of(payload@),
{
    match parse_u64(payload) {
        Some(v) => v,
        None => DEFAULT_DELAY_SECS,
    }
}

/// Looks into the inbox without waiting: a pending configuration message
/// sets the delay from its payload, whatever its topic; no message leaves
/// `delay` as it is.
pub fn poll_delay(inbox: &mut MessageChannel, delay: u64) -> (r: u64)
    requires
        old(inbox).wf(),
    ensures
        final(inbox).wf(),
        final(inbox)@ == after_receive(old(inbox)@),
        r == match received(old(inbox)@) {
            Some(m) => delay_of(m.1),
            None => delay,
        },
{
    match inbox.try_receive() {
        Some((_topic, payload)) => delay_from_payload(&payload),
        None => delay,
    }
}

} // verus!
