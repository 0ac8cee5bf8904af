//! Building display text from characters, strings and numbers.

use vstd::prelude::*;
use vstd::string::*;
use vstd::utf8::{decode_utf8, valid_utf8};

verus! {

/// `String::push` appends exactly one character to the end of the string.
pub assume_specification[ String::push ](s: &mut String, c: char)
    ensures
        final(s)@ == old(s)@.push(c),
;

/// Why bytes are no text.
#[verifier::external_type_specification]
#[verifier::external_body]
pub struct ExFromUtf8Error(std::string::FromUtf8Error);

/// `String::from_utf8` takes bytes for text exactly when they are valid
/// UTF-8, and the text is then what the bytes encode.
pub assume_specification[ String::from_utf8 ](bytes: Vec<u8>) -> (text: Result<
    String,
    std::string::FromUtf8Error,
>)
    ensures
        text is Ok <==> valid_utf8(bytes@),
        text matches Ok(decoded) ==> decoded@ == decode_utf8(bytes@),
;

/// Plain text of an optional string.
pub open spec fn text_of(value: Option<String>) -> Option<Seq<char>> {
    match value {
        Some(text) => Some(text@),
        None => None,
    }
}

/// The character that stands for the decimal digit `d`.
pub open spec fn digit_char(d: nat) -> char {
    if d == 0 {
        '0'
    } else if d == 1 {
        '1'
    } else if d == 2 {
        '2'
    } else if d == 3 {
        '3'
    } else if d == 4 {
        '4'
    } else if d == 5 {
        '5'
    } else if d == 6 {
        '6'
    } else if d == 7 {
        '7'
    } else if d == 8 {
        '8'
    } else {
        '9'
    }
}

/// The decimal notation of `n`, most significant digit first, without
/// leading zeros; zero is written as a single `0`.
pub open spec fn decimal(n: nat) -> Seq<char>
    decreases n,
{
    if n < 10 {
        seq![digit_char(n)]
    } else {
        decimal(n / 10).push(digit_char(n % 10))
    }
}

/// `digits` preceded by as many `0` as it takes to reach `width` characters.
/// Text that is already that long is left as it is.
pub open spec fn zero_padded(digits: Seq<char>, width: nat) -> Seq<char> {
    if digits.len() >= width {
        digits
    } else {
        Seq::new((width - digits.len()) as nat, |i: int| '0') + digits
    }
}

fn digit(d: u8) -> (c: char)
    requires
        d < 10,
    ensures
        c == digit_char(d as nat),
{
    match d {
        0 => '0',
        1 => '1',
        2 => '2',
        3 => '3',
        4 => '4',
        5 => '5',
        6 => '6',
        7 => '7',
        8 => '8',
        _ => '9',
    }
}

/// Appends the characters of `digits` to `out`, last one first.
fn push_reversed(out: &mut String, digits: &Vec<char>)
    ensures
        final(out)@ == old(out)@ + digits@.reverse(),
{
    let mut left: usize = digits.len();
    while left > 0
        invariant
            left <= digits.len(),
            out@ == old(out)@ + digits@.reverse().take(digits.len() - left),
        decreases left,
    {
        left = left - 1;
        out.push(digits[left]);
        assert(digits@.reverse().take(digits.len() - left) =~= digits@.reverse().take(
            digits.len() - left - 1,
        ).push(digits@[left as int]));
    }
    assert(digits@.reverse().take(digits.len() as int) =~= digits@.reverse());
}

/// Writes `n` in decimal.
pub fn decimal_string(n: u128) -> (out: String)
    ensures
        out@ == decimal(n as nat),
{
    let mut digits: Vec<char> = Vec::new();
    let mut rest: u128 = n;
    loop
        invariant_except_break
            decimal(n as nat) == decimal(rest as nat) + digits@.reverse(),
        ensures
            decimal(n as nat) == digits@.reverse(),
        decreases rest,
    {
        let low: u8 = (rest % 10) as u8;
        let ghost before = digits@;
        digits.push(digit(low));
        assert(digits@.reverse() =~= seq![digit_char(low as nat)] + before.reverse());
        if rest < 10 {
            assert(decimal(rest as nat) + before.reverse() =~= digits@.reverse());
            break ;
        }
        assert(decimal(rest as nat) + before.reverse() =~= decimal((rest / 10) as nat)
            + digits@.reverse());
        rest = rest / 10;
    }
    let mut out = String::new();
    push_reversed(&mut out, &digits);
    out
}

/// Writes `n` in decimal, with leading zeros up to `width` characters.
pub fn zero_padded_string(n: u128, width: usize) -> (out: String)
    ensures
        out@ == zero_padded(decimal(n as nat), width as nat),
{
    let digits = decimal_string(n);
    let length: usize = digits.as_str().unicode_len();
    let mut out = String::new();
    if length < width {
        let missing: usize = width - length;
        let mut done: usize = 0;
        while done < missing
            invariant
                done <= missing,
                out@ == Seq::new(done as nat, |i: int| '0'),
            decreases missing - done,
        {
            out.push('0');
            done = done + 1;
            assert(out@ =~= Seq::new(done as nat, |i: int| '0'));
        }
    }
    out.append(digits.as_str());
    out
}

} // verus!
