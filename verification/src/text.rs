//! Decimal notation of unsigned integers.

use vstd::prelude::*;
use vstd::string::*;

verus! {

/// The character that writes a single decimal digit.
pub open spec fn digit_char(d: nat) -> char
    recommends
        d < 10,
{
    if d == 0 {
        '0'
    } else if d == 1 {
        '1'
    } else if d == 2 {
        '2'
    } else if d == 3 {
        '3'
    } else if d == 4 {
        '4'
    } else if d == 5 {
        '5'
    } else if d == 6 {
        '6'
    } else if d == 7 {
        '7'
    } else if d == 8 {
        '8'
    } else {
        '9'
    }
}

/// The decimal notation of `n`: most significant digit first, no leading
/// zero, and `0` for zero.
pub open spec fn decimal(n: nat) -> Seq<char>
    decreases n,
{
    if n < 10 {
        seq![digit_char(n)]
    } else {
        decimal(n / 10).push(digit_char(n % 10))
    }
}

/// Every number has at least one digit.
proof fn lemma_decimal_nonempty(n: nat)
    ensures
        decimal(n).len() >= 1,
        n >= 10 ==> decimal(n).len() >= 2,
    decreases n,
{
    if n >= 10 {
        lemma_decimal_nonempty(n / 10);
    }
}

/// Two numbers that are written alike are the same number.
pub proof fn law_decimal_is_injective(a: nat, b: nat)
    requires
        decimal(a) == decimal(b),
    ensures
        a == b,
    decreases a,
{
    lemma_decimal_nonempty(a);
    lemma_decimal_nonempty(b);
    if a < 10 {
        assert(decimal(a)[0] == digit_char(a));
        assert(decimal(b)[0] == digit_char(b));
    } else {
        let high_a = decimal(a / 10);
        let high_b = decimal(b / 10);
        assert(high_a.push(digit_char(a % 10)).drop_last() =~= high_a);
        assert(high_b.push(digit_char(b % 10)).drop_last() =~= high_b);
        assert(high_a.push(digit_char(a % 10)).last() == digit_char(a % 10));
        assert(high_b.push(digit_char(b % 10)).last() == digit_char(b % 10));
        law_decimal_is_injective(a / 10, b / 10);
    }
}

/// The digits still to be written, followed by those already written.
spec fn pending(rest: nat, written: Seq<char>) -> Seq<char> {
    if rest == 0 {
        written
    } else {
        decimal(rest) + written
    }
}

/// Writing the last digit of `rest` in front of what is written leaves the
/// whole unchanged.
proof fn lemma_pending_step(rest: nat, written: Seq<char>)
    requires
        rest > 0,
    ensures
        pending(rest, written) == pending(rest / 10, seq![digit_char(rest % 10)] + written),
{
    let digit = digit_char(rest % 10);
    if rest < 10 {
        assert(rest / 10 == 0);
        assert(rest % 10 == rest);
    } else {
        assert(decimal(rest / 10).push(digit) + written =~= decimal(rest / 10) + (seq![digit]
            + written));
    }
}

/// The text of one decimal digit.
fn digit_text(d: u8) -> (text: &'static str)
    requires
        d < 10,
    ensures
        text@ == seq![digit_char(d as nat)],
{
    proof {
        reveal_strlit("0");
        reveal_strlit("1");
        reveal_strlit("2");
        reveal_strlit("3");
        reveal_strlit("4");
        reveal_strlit("5");
        reveal_strlit("6");
        reveal_strlit("7");
        reveal_strlit("8");
        reveal_strlit("9");
    }
    let text = if d == 0 {
        "0"
    } else if d == 1 {
        "1"
    } else if d == 2 {
        "2"
    } else if d == 3 {
        "3"
    } else if d == 4 {
        "4"
    } else if d == 5 {
        "5"
    } else if d == 6 {
        "6"
    } else if d == 7 {
        "7"
    } else if d == 8 {
        "8"
    } else {
        "9"
    };
    assert(text@ =~= seq![digit_char(d as nat)]);
    text
}

/// Writes `n` in decimal notation.
pub fn to_decimal(n: u128) -> (text: String)
    ensures
        text@ == decimal(n as nat),
{
    let mut rest: u128 = n / 10;
    let mut text = String::from_str(digit_text((n % 10) as u8));
    proof {
        if n >= 10 {
            lemma_pending_step(n as nat, Seq::empty());
            assert(seq![digit_char((n % 10) as nat)] + Seq::<char>::empty() =~= text@);
            assert(pending(n as nat, Seq::empty()) =~= decimal(n as nat));
        }
    }
    while rest > 0
        invariant
            decimal(n as nat) == pending(rest as nat, text@),
        decreases rest,
    {
        let digit = digit_text((rest % 10) as u8);
        proof {
            lemma_pending_step(rest as nat, text@);
        }
        text = String::from_str(digit).concat(text.as_str());
        rest = rest / 10;
    }
    text
}

} // verus!
