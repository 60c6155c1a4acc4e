//! Operations on text that the signalling protocol needs.

use vstd::prelude::*;

verus! {

/// Whether `text` begins with `prefix`.
pub fn starts_with(text: &str, prefix: &str) -> (answer: bool)
    ensures
        answer == prefix@.is_prefix_of(text@),
{
    let text_len: usize = text.unicode_len();
    let prefix_len: usize = prefix.unicode_len();
    if text_len < prefix_len {
        return false;
    }
    let mut i: usize = 0;
    while i < prefix_len
        invariant
            text_len == text@.len(),
            prefix_len == prefix@.len(),
            i <= prefix_len <= text_len,
            forall|j: int| 0 <= j < i ==> text@[j] == prefix@[j],
        decreases prefix_len - i,
    {
        if text.get_char(i) != prefix.get_char(i) {
            assert(text@[i as int] != prefix@[i as int]);
            return false;
        }
        i += 1;
    }
    assert(text@.subrange(0, prefix@.len() as int) =~= prefix@);
    true
}

/// Whether two texts hold the same characters.
pub fn same_text(a: &str, b: &str) -> (answer: bool)
    ensures
        answer == (a@ == b@),
{
    if a.unicode_len() != b.unicode_len() {
        return false;
    }
    let answer = starts_with(a, b);
    assert(answer ==> a@ =~= b@);
    answer
}

/// The contents of names.
pub open spec fn names(texts: Seq<&'static str>) -> Seq<Seq<char>> {
    texts.map_values(|text: &'static str| text@)
}

/// The three texts one after the other.
pub fn join3(a: &str, b: &str, c: &str) -> (joined: String)
    ensures
        joined@ == a@ + b@ + c@,
{
    let mut joined = a.to_owned();
    joined.append(b);
    joined.append(c);
    joined
}

/// The decimal digit of a number below ten.
pub open spec fn digit(d: nat) -> char {
    (('0' as u32) + d) as char
}

/// A number in decimal notation, without leading zeros.
pub open spec fn decimal(n: nat) -> Seq<char>
    decreases n,
{
    if n < 10 {
        seq![digit(n)]
    } else {
        decimal(n / 10).push(digit(n % 10))
    }
}

/// An integer in decimal notation: a minus sign before the digits of a negative one.
pub open spec fn signed_decimal(n: int) -> Seq<char> {
    if n < 0 {
        seq!['-'] + decimal((-n) as nat)
    } else {
        decimal(n as nat)
    }
}

/// The text of one decimal digit.
fn digit_text(d: u32) -> (text: &'static str)
    requires
        d < 10,
    ensures
        text@ == seq![digit(d as nat)],
{
    proof {
        reveal_strlit("0");
        reveal_strlit("1");
        reveal_strlit("2");
        reveal_strlit("3");
        reveal_strlit("4");
        reveal_strlit("5");
        reveal_strlit("6");
        reveal_strlit("7");
        reveal_strlit("8");
        reveal_strlit("9");
    }
    let text = match d {
        0 => "0",
        1 => "1",
        2 => "2",
        3 => "3",
        4 => "4",
        5 => "5",
        6 => "6",
        7 => "7",
        8 => "8",
        _ => "9",
    };
    assert(text@ =~= seq![digit(d as nat)]);
    text
}

/// Writes a number in decimal notation.
pub fn decimal_text(n: u32) -> (text: String)
    ensures
        text@ == decimal(n as nat),
    decreases n,
{
    if n < 10 {
        digit_text(n).to_owned()
    } else {
        let mut text = decimal_text(n / 10);
        text.append(digit_text(n % 10));
        assert(text@ =~= decimal(n as nat));
        text
    }
}

/// Writes an integer in decimal notation.
pub fn signed_decimal_text(n: i32) -> (text: String)
    ensures
        text@ == signed_decimal(n as int),
{
    if n < 0 {
        let magnitude: u32 = (-(n as i64)) as u32;
        let digits = decimal_text(magnitude);
        let mut text = "-".to_owned();
        text.append(digits.as_str());
        proof {
            reveal_strlit("-");
            assert("-"@ =~= seq!['-']);
        }
        text
    } else {
        decimal_text(n as u32)
    }
}

/// The number that a sequence of decimal digits denotes.
pub open spec fn decimal_value(digits: Seq<char>) -> int
    decreases digits.len(),
{
    if digits.len() == 0 {
        0
    } else {
        10 * decimal_value(digits.drop_last()) + (digits.last() as u32 - '0' as u32)
    }
}

/// Decimal notation reads back as the number that it was written from.
pub proof fn law_decimal_reads_back(n: nat)
    ensures
        decimal_value(decimal(n)) == n,
        decimal(n).len() > 0,
        forall|i: int| 0 <= i < decimal(n).len() ==> '0' <= #[trigger] decimal(n)[i] <= '9',
    decreases n,
{
    if n < 10 {
        assert(decimal(n).drop_last() =~= Seq::<char>::empty());
        reveal_with_fuel(decimal_value, 2);
    } else {
        law_decimal_reads_back(n / 10);
        assert(decimal(n).drop_last() =~= decimal(n / 10));
        assert(decimal(n).last() == digit(n % 10));
    }
}

/// Decimal notation has no leading zeros, and a minus sign exactly before the digits of a negative
/// number.
pub proof fn law_decimal_is_short(n: nat, z: int)
    ensures
        decimal(n).len() > 1 ==> decimal(n)[0] != '0',
        z >= 0 ==> signed_decimal(z) == decimal(z as nat),
        z < 0 ==> signed_decimal(z).len() > 1 && signed_decimal(z)[0] == '-' && decimal_value(
            signed_decimal(z).skip(1),
        ) == -z && signed_decimal(z).skip(1) == decimal((-z) as nat),
    decreases n,
{
    if n >= 10 {
        law_decimal_is_short(n / 10, 0);
        law_decimal_reads_back(n / 10);
        if n / 10 < 10 {
            assert(decimal(n / 10) =~= seq![digit(n / 10)]);
            assert(digit(n / 10) != '0');
        } else {
            reveal_with_fuel(decimal, 2);
            law_decimal_reads_back(n / 10 / 10);
            assert(decimal(n / 10).len() > 1);
        }
        assert(decimal(n)[0] == decimal(n / 10)[0]);
    }
    if z < 0 {
        law_decimal_reads_back((-z) as nat);
        assert(signed_decimal(z).skip(1) =~= decimal((-z) as nat));
    }
}

} // verus!
