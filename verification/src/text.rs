use vstd::prelude::*;

verus! {

/// Relies on String::push: appends the given char to the end of the string.
#[verifier::external_body]
pub(crate) fn push_char(s: &mut String, c: char)
    ensures
        final(s)@ == old(s)@.push(c),
{
    s.push(c)
}

/// The character for one decimal digit.
pub open spec fn spec_digit(d: int) -> char
    recommends
        0 <= d < 10,
{
    ((48 + d) as u8) as char
}

/// The decimal rendering of a non-negative integer, most significant digit first.
pub open spec fn spec_decimal(n: int) -> Seq<char>
    recommends
        n >= 0,
    decreases n,
{
    if n < 10 {
        seq![spec_digit(n)]
    } else {
        spec_decimal(n / 10).push(spec_digit(n % 10))
    }
}

/// The lowercase letter at `offset` from `'a'`.
pub open spec fn spec_letter(offset: int) -> char
    recommends
        0 <= offset < 26,
{
    ((97 + offset) as u8) as char
}

fn digit_char(d: usize) -> (c: char)
    requires
        d < 10,
    ensures
        c == spec_digit(d as int),
{
    (48 + d as u8) as char
}

/// Renders `n` in decimal.
pub fn decimal_string(n: usize) -> (r: String)
    ensures
        r@ == spec_decimal(n as int),
    decreases n,
{
    if n < 10 {
        let mut s = String::new();
        push_char(&mut s, digit_char(n));
        s
    } else {
        let mut s = decimal_string(n / 10);
        push_char(&mut s, digit_char(n % 10));
        s
    }
}

/// Renders the lowercase letter at `offset` from `'a'` as a one-character string.
pub fn letter_string(offset: usize) -> (r: String)
    requires
        offset < 26,
    ensures
        r@ == seq![spec_letter(offset as int)],
{
    let mut s = String::new();
    let c: char = (97 + offset as u8) as char;
    push_char(&mut s, c);
    assert(s@ =~= seq![spec_letter(offset as int)]);
    s
}

} // verus!
