//! Fixed-width hexadecimal text: what a run of digits denotes, and how a
//! number is written in lowercase digits.

use vstd::prelude::*;

verus! {

/// The value of one hexadecimal digit, in either case; `None` for any other
/// character.
pub open spec fn hex_digit_value(c: char) -> Option<nat> {
    if '0' <= c <= '9' {
        Some((c as nat - '0' as nat) as nat)
    } else if 'a' <= c <= 'f' {
        Some((c as nat - 'a' as nat + 10) as nat)
    } else if 'A' <= c <= 'F' {
        Some((c as nat - 'A' as nat + 10) as nat)
    } else {
        None
    }
}

/// Whether `c` is one of `0-9`, `a-f`, `A-F`.
pub open spec fn is_hex_digit(c: char) -> bool {
    hex_digit_value(c) is Some
}

/// The number that a run of hexadecimal digits denotes, most significant
/// digit first. A character that is no digit counts as zero.
pub open spec fn hex_value(s: Seq<char>) -> nat
    decreases s.len(),
{
    if s.len() == 0 {
        0
    } else {
        16 * hex_value(s.drop_last()) + match hex_digit_value(s.last()) {
            Some(d) => d,
            None => 0,
        }
    }
}

/// The lowercase digit for a value below sixteen.
pub open spec fn lower_hex_digit(d: nat) -> char {
    if d < 10 {
        ('0' as nat + d) as char
    } else {
        ('a' as nat + d - 10) as char
    }
}

/// The `width` lowest hexadecimal digits of `n` in lowercase, most
/// significant first, padded with zeros on the left.
pub open spec fn lower_hex(n: nat, width: nat) -> Seq<char>
    decreases width,
{
    if width == 0 {
        Seq::empty()
    } else {
        lower_hex(n / 16, (width - 1) as nat).push(lower_hex_digit(n % 16))
    }
}

/// Sixteen to the power `width`: the first number that `width` digits cannot
/// hold.
pub open spec fn hex_limit(width: nat) -> nat
    decreases width,
{
    if width == 0 {
        1
    } else {
        16 * hex_limit((width - 1) as nat)
    }
}

/// `String::push` appends the one character to the end of the string and
/// leaves what stood there untouched.
pub assume_specification[ String::push ](s: &mut String, ch: char)
    ensures
        final(s)@ == old(s)@.push(ch),
;

/// Tells whether `c` is a hexadecimal digit.
pub fn check_hex_digit(c: char) -> (b: bool)
    ensures
        b == is_hex_digit(c),
{
    ('0' <= c && c <= '9') || ('a' <= c && c <= 'f') || ('A' <= c && c <= 'F')
}

/// The lowercase digit for a value below sixteen.
fn lower_hex_char(d: u8) -> (c: char)
    requires
        d < 16,
    ensures
        c == lower_hex_digit(d as nat),
{
    if d < 10 {
        ('0' as u8 + d) as char
    } else {
        ('a' as u8 + (d - 10)) as char
    }
}

/// Appends the `width` lowest digits of `value` to `out`.
pub fn push_lower_hex(out: &mut String, value: u128, width: u8)
    ensures
        final(out)@ == old(out)@ + lower_hex(value as nat, width as nat),
    decreases width,
{
    if width > 0 {
        push_lower_hex(out, value / 16, width - 1);
        let digit: u8 = (value % 16) as u8;
        out.push(lower_hex_char(digit));
        assert(out@ =~= old(out)@ + lower_hex(value as nat, width as nat));
    } else {
        assert(out@ =~= old(out)@ + lower_hex(value as nat, width as nat));
    }
}

/// Every character of a rendering is a lowercase digit, and there are
/// `width` of them.
pub proof fn lemma_lower_hex_shape(n: nat, width: nat)
    ensures
        lower_hex(n, width).len() == width,
        forall|i: int|
            0 <= i < width ==> is_hex_digit(#[trigger] lower_hex(n, width)[i]) && lower_hex(
                n,
                width,
            )[i] != '-',
    decreases width,
{
    if width > 0 {
        lemma_lower_hex_shape(n / 16, (width - 1) as nat);
    }
}

/// Reading back what was written gives the number again, as long as the
/// digits could hold it.
pub proof fn lemma_hex_round_trip(n: nat, width: nat)
    requires
        n < hex_limit(width),
    ensures
        hex_value(lower_hex(n, width)) == n,
    decreases width,
{
    if width > 0 {
        let rest = lower_hex(n / 16, (width - 1) as nat);
        lemma_hex_round_trip(n / 16, (width - 1) as nat);
        assert(lower_hex(n, width).drop_last() =~= rest);
    }
}

/// A run of digits denotes a number below the limit of its length.
pub proof fn lemma_hex_value_bound(s: Seq<char>)
    ensures
        hex_value(s) < hex_limit(s.len()),
    decreases s.len(),
{
    if s.len() > 0 {
        lemma_hex_value_bound(s.drop_last());
    }
}

} // verus!
