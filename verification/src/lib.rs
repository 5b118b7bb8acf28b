//! Point-to-point distance service.
//!
//! One operation, `point_to_point_distance`, takes two unsigned integers and
//! returns the decimal string of their sum; on overflow it reports an error.

use vstd::prelude::*;

verus! {

/// The character for a single decimal digit value.
pub open spec fn char_of_digit(d: int) -> char {
    if d == 0 {
        '0'
    } else if d == 1 {
        '1'
    } else if d == 2 {
        '2'
    } else if d == 3 {
        '3'
    } else if d == 4 {
        '4'
    } else if d == 5 {
        '5'
    } else if d == 6 {
        '6'
    } else if d == 7 {
        '7'
    } else if d == 8 {
        '8'
    } else {
        '9'
    }
}

/// The decimal representation of a natural number: most significant digit
/// first, no leading zeros (`0` itself is the single character `'0'`).
pub open spec fn dec_str(n: nat) -> Seq<char>
    decreases n,
{
    if n < 10 {
        seq![char_of_digit(n as int)]
    } else {
        dec_str(n / 10).push(char_of_digit((n % 10) as int))
    }
}

/// The string holding exactly one decimal digit.
fn digit_str(d: u8) -> (s: &'static str)
    requires
        d < 10,
    ensures
        s@ =~= seq![char_of_digit(d as int)],
{
    proof {
        reveal_strlit("0");
        reveal_strlit("1");
        reveal_strlit("2");
        reveal_strlit("3");
        reveal_strlit("4");
        reveal_strlit("5");
        reveal_strlit("6");
        reveal_strlit("7");
        reveal_strlit("8");
        reveal_strlit("9");
    }
    match d {
        0 => "0",
        1 => "1",
        2 => "2",
        3 => "3",
        4 => "4",
        5 => "5",
        6 => "6",
        7 => "7",
        8 => "8",
        _ => "9",
    }
}

/// The decimal string of `n`, most significant digit first.
pub fn decimal_string(n: usize) -> (s: String)
    ensures
        s@ == dec_str(n as nat),
    decreases n,
{
    if n < 10 {
        digit_str(n as u8).to_owned()
    } else {
        let mut s = decimal_string(n / 10);
        s.append(digit_str((n % 10) as u8));
        proof {
            assert(s@ =~= dec_str(n as nat));
        }
        s
    }
}

/// The ways `point_to_point_distance` can fail: only when the sum of its
/// inputs does not fit the platform's integer width.
#[derive(Clone, Copy, Debug, PartialEq, Eq, Structural)]
pub enum DistanceError {
    Overflow,
}

/// What `point_to_point_distance` returns, at the specification level: the
/// decimal string of `a + b`, or an overflow error when the sum exceeds the
/// platform's representable range.
pub open spec fn spec_distance(a: int, b: int) -> Result<Seq<char>, DistanceError> {
    if a + b <= usize::MAX {
        Ok(dec_str((a + b) as nat))
    } else {
        Err(DistanceError::Overflow)
    }
}

/// The decimal string of `a + b`; `Err(DistanceError::Overflow)` exactly when
/// the sum exceeds the platform's representable range.
pub fn point_to_point_distance(a: usize, b: usize) -> (r: Result<String, DistanceError>)
    ensures
        match r {
            Ok(s) => spec_distance(a as int, b as int) == Ok::<Seq<char>, DistanceError>(s@),
            Err(e) => spec_distance(a as int, b as int) == Err::<Seq<char>, DistanceError>(e),
        },
{
    match a.checked_add(b) {
        Some(sum) => Ok(decimal_string(sum)),
        None => Err(DistanceError::Overflow),
    }
}

/// The value of a single decimal digit character; -1 for any other character.
pub open spec fn digit_val(c: char) -> int {
    if c == '0' {
        0
    } else if c == '1' {
        1
    } else if c == '2' {
        2
    } else if c == '3' {
        3
    } else if c == '4' {
        4
    } else if c == '5' {
        5
    } else if c == '6' {
        6
    } else if c == '7' {
        7
    } else if c == '8' {
        8
    } else if c == '9' {
        9
    } else {
        -1
    }
}

/// The number a sequence of digit characters denotes in base ten.
pub open spec fn dec_val(s: Seq<char>) -> int
    decreases s.len(),
{
    if s.len() == 0 {
        0
    } else {
        dec_val(s.drop_last()) * 10 + digit_val(s.last())
    }
}

/// Reading the decimal string of `n` back as a base-ten numeral gives `n`:
/// `dec_str` is the exact decimal encoding, and in particular injective.
pub proof fn lemma_dec_str_round_trip(n: nat)
    ensures
        dec_val(dec_str(n)) == n,
    decreases n,
{
    if n < 10 {
        assert(dec_str(n).drop_last() =~= Seq::<char>::empty());
        assert(dec_val(dec_str(n)) == dec_val(Seq::<char>::empty()) * 10 + digit_val(
            char_of_digit(n as int),
        ));
        assert(digit_val(char_of_digit(n as int)) == n);
    } else {
        lemma_dec_str_round_trip(n / 10);
        assert(dec_str(n).drop_last() =~= dec_str(n / 10));
        assert(dec_str(n).last() == char_of_digit((n % 10) as int));
        assert(dec_val(dec_str(n)) == dec_val(dec_str(n / 10)) * 10 + digit_val(
            char_of_digit((n % 10) as int),
        ));
        assert(digit_val(char_of_digit((n % 10) as int)) == n % 10);
        assert(n / 10 * 10 + n % 10 == n);
    }
}

/// The decimal string is canonical: never empty, every character a decimal
/// digit, and no leading zero except for the string `"0"` itself.
pub proof fn lemma_dec_str_canonical(n: nat)
    ensures
        dec_str(n).len() >= 1,
        forall|i: int| 0 <= i < dec_str(n).len() ==> 0 <= digit_val(#[trigger] dec_str(n)[i]) <= 9,
        dec_str(n)[0] == '0' <==> n == 0,
    decreases n,
{
    if n >= 10 {
        lemma_dec_str_canonical(n / 10);
    }
}

/// The distance is symmetric in its two points: swapping the arguments of
/// `point_to_point_distance` never changes the outcome.
pub proof fn lemma_point_to_point_distance_commutes(a: usize, b: usize)
    ensures
        spec_distance(a as int, b as int) == spec_distance(b as int, a as int),
{
}

} // verus!
