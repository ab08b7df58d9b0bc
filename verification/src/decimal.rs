//! Numbers as decimal text.

use vstd::arithmetic::power::pow;
use vstd::prelude::*;

verus! {

/// The digit that stands for a number below ten.
pub open spec fn digit_char(digit: nat) -> char {
    ('0' as u32 + digit) as char
}

/// The decimal text of a number, without leading zeros.
pub open spec fn decimal(n: nat) -> Seq<char>
    decreases n,
{
    if n < 10 {
        seq![digit_char(n)]
    } else {
        decimal(n / 10).push(digit_char(n % 10))
    }
}

/// True if the text is one or more decimal digits.
pub open spec fn is_decimal(text: Seq<char>) -> bool {
    &&& text.len() > 0
    &&& forall|i: int| 0 <= i < text.len() ==> '0' <= #[trigger] text[i] <= '9'
}

/// The number that a text of decimal digits stands for.
pub open spec fn decimal_value(text: Seq<char>) -> nat
    decreases text.len(),
{
    if text.len() == 0 {
        0
    } else {
        10 * decimal_value(text.drop_last()) + (text.last() as u32 - '0' as u32) as nat
    }
}

/// Leading digits stand for no more than all of them.
proof fn lemma_prefix_value(text: Seq<char>, end: int)
    requires
        0 <= end <= text.len(),
    ensures
        decimal_value(text.take(end)) <= decimal_value(text),
    decreases text.len() - end,
{
    if end < text.len() {
        lemma_prefix_value(text, end + 1);
        assert(text.take(end + 1).drop_last() =~= text.take(end));
    } else {
        assert(text.take(end) =~= text);
    }
}

/// The decimal text of a number is made of digits and stands for that number.
pub proof fn law_decimal_round_trip(n: nat)
    ensures
        is_decimal(decimal(n)),
        decimal_value(decimal(n)) == n,
    decreases n,
{
    if n < 10 {
        assert(decimal(n).drop_last() =~= Seq::empty());
        assert(decimal_value(decimal(n).drop_last()) == 0);
        assert(decimal(n).last() == digit_char(n));
    } else {
        law_decimal_round_trip(n / 10);
        assert(decimal(n).drop_last() =~= decimal(n / 10));
        assert(decimal(n).last() == digit_char(n % 10));
    }
}

/// Digits count by their place: those in front of `n` others count ten to the power of `n` times
/// as much as they do alone, and a single digit counts what it stands for.
pub proof fn law_digits_count_by_place(front: Seq<char>, back: Seq<char>, digit: char)
    ensures
        decimal_value(front + back) == decimal_value(front) * pow(10, back.len()) + decimal_value(
            back,
        ),
        decimal_value(seq![]) == 0,
        '0' <= digit <= '9' ==> decimal_value(seq![digit]) == digit as u32 - '0' as u32,
    decreases back.len(),
{
    reveal(pow);
    let one = seq![digit];
    assert(one.drop_last() =~= Seq::empty());
    assert(decimal_value(one.drop_last()) == 0);
    assert(one.last() == digit);
    if back.len() == 0 {
        assert(front + back =~= front);
    } else {
        let less = back.drop_last();
        law_digits_count_by_place(front, less, digit);
        assert((front + back).drop_last() =~= front + less);
        let value = decimal_value(front) as int;
        let place = pow(10, less.len());
        assert(10 * (value * place) == value * (10 * place)) by (nonlinear_arith);
    }
}

/// Text counts as a number exactly if it is not empty and none of it is anything but a digit: a
/// digit counts, any other character does not, and two texts count together exactly if both do.
pub proof fn law_number_is_all_digits(front: Seq<char>, back: Seq<char>, c: char)
    ensures
        !is_decimal(seq![]),
        is_decimal(seq![c]) <==> '0' <= c <= '9',
        front.len() > 0 && back.len() > 0 ==> (is_decimal(front + back) <==> is_decimal(front)
            && is_decimal(back)),
{
    assert(seq![c][0] == c);
    let both = front + back;
    if front.len() > 0 && back.len() > 0 && is_decimal(both) {
        assert forall|i: int| 0 <= i < front.len() implies '0' <= #[trigger] front[i] <= '9' by {
            assert(both[i] == front[i]);
        }
        assert forall|i: int| 0 <= i < back.len() implies '0' <= #[trigger] back[i] <= '9' by {
            assert(both[front.len() + i] == back[i]);
        }
    }
}

/// The decimal text of a number does not begin with a zero, unless the number is zero.
pub proof fn law_no_leading_zero(n: nat)
    ensures
        decimal(n).len() > 0,
        decimal(n)[0] == '0' <==> n == 0,
        n == 0 ==> decimal(n).len() == 1,
    decreases n,
{
    if n >= 10 {
        law_no_leading_zero(n / 10);
        assert(decimal(n)[0] == decimal(n / 10)[0]);
    } else {
        assert(decimal(n)[0] == digit_char(n));
    }
}

fn digit_str(digit: u32) -> (text: &'static str)
    requires
        digit < 10,
    ensures
        text@ == seq![digit_char(digit as nat)],
{
    proof {
        reveal_strlit("0");
        reveal_strlit("1");
        reveal_strlit("2");
        reveal_strlit("3");
        reveal_strlit("4");
        reveal_strlit("5");
        reveal_strlit("6");
        reveal_strlit("7");
        reveal_strlit("8");
        reveal_strlit("9");
    }
    let text: &'static str = match digit {
        0 => "0",
        1 => "1",
        2 => "2",
        3 => "3",
        4 => "4",
        5 => "5",
        6 => "6",
        7 => "7",
        8 => "8",
        _ => "9",
    };
    assert(text@ =~= seq![digit_char(digit as nat)]);
    text
}

/// Appends the decimal text of a number.
pub fn push_decimal(text: &mut String, n: u32)
    ensures
        final(text)@ == old(text)@ + decimal(n as nat),
    decreases n,
{
    if n >= 10 {
        push_decimal(text, n / 10);
    }
    let ghost before = text@;
    text.append(digit_str(n % 10));
    assert(text@ =~= old(text)@ + decimal(n as nat));
}

/// Reads the decimal digits from `start` on, `None` where there are none, where something else
/// stands among them or where the number does not fit.
pub fn parse_decimal(chars: &Vec<char>, start: usize) -> (n: Option<u32>)
    requires
        start <= chars@.len(),
    ensures
        n is Some <==> is_decimal(chars@.skip(start as int)) && decimal_value(
            chars@.skip(start as int),
        ) <= u32::MAX,
        n matches Some(value) ==> value == decimal_value(chars@.skip(start as int)),
{
    let ghost digits = chars@.skip(start as int);
    if start == chars.len() {
        return None;
    }
    let mut value: u32 = 0;
    let mut i: usize = start;
    while i < chars.len()
        invariant
            start <= i <= chars@.len(),
            digits == chars@.skip(start as int),
            forall|j: int| 0 <= j < i - start ==> '0' <= #[trigger] digits[j] <= '9',
            value == decimal_value(digits.take(i - start)),
        decreases chars@.len() - i,
    {
        let c = chars[i];
        proof {
            assert(digits[i - start] == c);
            assert(digits.take(i - start + 1).drop_last() =~= digits.take(i - start));
            lemma_prefix_value(digits, i - start + 1);
        }
        if c < '0' || '9' < c {
            return None;
        }
        let digit: u32 = c as u32 - '0' as u32;
        if value > (u32::MAX - digit) / 10 {
            return None;
        }
        value = 10 * value + digit;
        i = i + 1;
    }
    assert(digits.take(i - start) =~= digits);
    Some(value)
}

} // verus!
