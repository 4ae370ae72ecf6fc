//! Building blocks for text: repetition and decimal numerals.

use vstd::arithmetic::div_mod::lemma_fundamental_div_mod_converse;
use vstd::prelude::*;

verus! {

/// `unit` written `count` times in a row.
pub open spec fn repeated(unit: Seq<char>, count: nat) -> Seq<char>
    decreases count,
{
    if count == 0 {
        Seq::empty()
    } else {
        repeated(unit, (count - 1) as nat) + unit
    }
}

/// A repetition is `count` times as long as its unit.
pub proof fn lemma_repeated_len(unit: Seq<char>, count: nat)
    ensures
        repeated(unit, count).len() == unit.len() * count,
    decreases count,
{
    if count == 0 {
        assert(unit.len() * count == 0) by (nonlinear_arith)
            requires
                count == 0,
        ;
    } else {
        lemma_repeated_len(unit, (count - 1) as nat);
        assert(unit.len() * count == unit.len() * (count - 1) + unit.len()) by (nonlinear_arith);
    }
}

/// The character at a place in a repetition is the character of the unit
/// at that place, counted round the unit.
pub proof fn lemma_repeated_index(unit: Seq<char>, count: nat, place: int)
    requires
        0 <= place < unit.len() * count,
    ensures
        repeated(unit, count).len() == unit.len() * count,
        repeated(unit, count)[place] == unit[place % (unit.len() as int)],
    decreases count,
{
    lemma_repeated_len(unit, count);
    let width = unit.len() as int;
    let before = (count - 1) as nat;
    assert(count > 0 && width > 0) by (nonlinear_arith)
        requires
            0 <= place < width * count,
            0 <= width,
    ;
    lemma_repeated_len(unit, before);
    assert(width * count == width * before + width) by (nonlinear_arith)
        requires
            before == count - 1,
    ;
    if place < width * before {
        lemma_repeated_index(unit, before, place);
    } else {
        assert(before * width == width * before) by (nonlinear_arith);
        lemma_fundamental_div_mod_converse(place, width, before as int, place - width * before);
    }
}

/// Returns `unit` written `count` times in a row.
pub fn repeat(unit: &str, count: usize) -> (out: String)
    ensures
        out@ == repeated(unit@, count as nat),
{
    let mut out = String::new();
    let mut done: usize = 0;
    while done < count
        invariant
            done <= count,
            out@ == repeated(unit@, done as nat),
        decreases count - done,
    {
        out.append(unit);
        done += 1;
    }
    out
}

/// The character that writes the digit `digit`, for `digit` below ten.
pub open spec fn digit_char(digit: nat) -> char {
    "0123456789"@[digit as int]
}

/// The decimal numeral of `value`: most significant digit first, no sign,
/// no leading zero, and `"0"` for zero.
pub open spec fn decimal(value: nat) -> Seq<char>
    decreases value,
{
    if value < 10 {
        seq![digit_char(value)]
    } else {
        decimal(value / 10).push(digit_char(value % 10))
    }
}

/// The number that the digit character `digit` writes.
pub open spec fn digit_value(digit: char) -> int {
    digit as int - '0' as int
}

/// The number that the numeral `digits` writes.
pub open spec fn numeral_value(digits: Seq<char>) -> int
    decreases digits.len(),
{
    if digits.len() == 0 {
        0
    } else {
        numeral_value(digits.drop_last()) * 10 + digit_value(digits.last())
    }
}

/// The decimal numeral of a number writes that number, in digits only and
/// without a leading zero.
pub proof fn lemma_decimal_reads_back(value: nat)
    ensures
        numeral_value(decimal(value)) == value,
        decimal(value).len() >= 1,
        forall|place: int|
            0 <= place < decimal(value).len() ==> 0 <= digit_value(
                #[trigger] decimal(value)[place],
            ) <= 9,
        value > 0 ==> decimal(value)[0] != '0',
    decreases value,
{
    reveal_strlit("0123456789");
    let last = digit_char(value % 10);
    assert(digit_value(last) == value % 10);
    if value < 10 {
        assert(decimal(value).drop_last() =~= Seq::<char>::empty());
        assert(numeral_value(decimal(value)) == numeral_value(Seq::<char>::empty()) * 10
            + digit_value(last));
    } else {
        lemma_decimal_reads_back(value / 10);
        assert(decimal(value).drop_last() =~= decimal(value / 10));
    }
}

/// The one-character text of a single digit.
fn digit_text(digit: usize) -> (out: &'static str)
    requires
        digit < 10,
    ensures
        out@ == seq![digit_char(digit as nat)],
{
    proof {
        reveal_strlit("0123456789");
    }
    let out = "0123456789".substring_char(digit, digit + 1);
    assert(out@ =~= seq![digit_char(digit as nat)]);
    out
}

/// Writes `value` as a decimal numeral.
pub fn decimal_string(value: usize) -> (out: String)
    ensures
        out@ == decimal(value as nat),
    decreases value,
{
    if value < 10 {
        digit_text(value).to_owned()
    } else {
        let mut out = decimal_string(value / 10);
        out.append(digit_text(value % 10));
        out
    }
}

/// Says whether two texts are the same, character by character.
pub fn same_text(first: &str, second: &str) -> (same: bool)
    ensures
        same == (first@ == second@),
{
    first.to_owned() == second.to_owned()
}

} // verus!
