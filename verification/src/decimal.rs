//! Whole numbers written out in decimal, as a caption shows them.

use vstd::prelude::*;
use vstd::string::*;

verus! {

/// The character that stands for the digit `d`, from 0 to 9.
pub open spec fn digit(d: int) -> char
    recommends
        0 <= d <= 9,
{
    if d == 0 {
        '0'
    } else if d == 1 {
        '1'
    } else if d == 2 {
        '2'
    } else if d == 3 {
        '3'
    } else if d == 4 {
        '4'
    } else if d == 5 {
        '5'
    } else if d == 6 {
        '6'
    } else if d == 7 {
        '7'
    } else if d == 8 {
        '8'
    } else {
        '9'
    }
}

/// The digits of `n`, most significant first, with no leading zero.
pub open spec fn decimal_nat(n: nat) -> Seq<char>
    decreases n,
{
    if n < 10 {
        seq![digit(n as int)]
    } else {
        decimal_nat(n / 10).push(digit((n % 10) as int))
    }
}

/// `n` in decimal: a minus sign if it is negative, then the digits of its
/// magnitude.
pub open spec fn decimal(n: int) -> Seq<char> {
    if n < 0 {
        seq!['-'] + decimal_nat((-n) as nat)
    } else {
        decimal_nat(n as nat)
    }
}

/// A number has at least one digit, and one of ten or more has at least two.
pub proof fn lemma_decimal_nat_len(n: nat)
    ensures
        decimal_nat(n).len() >= 1,
        n >= 10 ==> decimal_nat(n).len() >= 2,
    decreases n,
{
    if n >= 10 {
        lemma_decimal_nat_len(n / 10);
    }
}

/// The digits of a number never start with a minus sign.
pub proof fn lemma_decimal_nat_unsigned(n: nat)
    ensures
        decimal_nat(n)[0] != '-',
    decreases n,
{
    if n >= 10 {
        lemma_decimal_nat_len(n / 10);
        lemma_decimal_nat_unsigned(n / 10);
    }
}

/// Two numbers with the same digits are the same number.
pub proof fn lemma_decimal_nat_injective(a: nat, b: nat)
    requires
        decimal_nat(a) == decimal_nat(b),
    ensures
        a == b,
    decreases a,
{
    lemma_decimal_nat_len(a);
    lemma_decimal_nat_len(b);
    if a < 10 {
        assert(decimal_nat(a)[0] == digit(a as int));
        assert(decimal_nat(b)[0] == digit(b as int));
    } else {
        let high_a = decimal_nat(a / 10);
        let high_b = decimal_nat(b / 10);
        assert(high_a == decimal_nat(a).drop_last());
        assert(high_b == decimal_nat(b).drop_last());
        lemma_decimal_nat_injective(a / 10, b / 10);
        assert(decimal_nat(a).last() == digit((a % 10) as int));
        assert(decimal_nat(b).last() == digit((b % 10) as int));
    }
}

/// Two whole numbers that are written alike are the same number.
pub proof fn lemma_decimal_injective(a: int, b: int)
    requires
        decimal(a) == decimal(b),
    ensures
        a == b,
{
    if a < 0 && b < 0 {
        let digits_a = decimal_nat((-a) as nat);
        let digits_b = decimal_nat((-b) as nat);
        assert(digits_a == decimal(a).subrange(1, decimal(a).len() as int));
        assert(digits_b == decimal(b).subrange(1, decimal(b).len() as int));
        lemma_decimal_nat_injective((-a) as nat, (-b) as nat);
    } else if a < 0 {
        lemma_decimal_nat_unsigned(b as nat);
        assert(decimal(a)[0] == '-');
    } else if b < 0 {
        lemma_decimal_nat_unsigned(a as nat);
        assert(decimal(b)[0] == '-');
    } else {
        lemma_decimal_nat_injective(a as nat, b as nat);
    }
}

fn digit_str(d: u32) -> (s: &'static str)
    requires
        d < 10,
    ensures
        s@ == seq![digit(d as int)],
{
    proof {
        reveal_strlit("0");
        reveal_strlit("1");
        reveal_strlit("2");
        reveal_strlit("3");
        reveal_strlit("4");
        reveal_strlit("5");
        reveal_strlit("6");
        reveal_strlit("7");
        reveal_strlit("8");
        reveal_strlit("9");
    }
    let s = match d {
        0 => "0",
        1 => "1",
        2 => "2",
        3 => "3",
        4 => "4",
        5 => "5",
        6 => "6",
        7 => "7",
        8 => "8",
        _ => "9",
    };
    assert(s@ =~= seq![digit(d as int)]);
    s
}

fn nat_to_decimal(n: u32) -> (s: String)
    ensures
        s@ == decimal_nat(n as nat),
    decreases n,
{
    if n < 10 {
        digit_str(n).to_owned()
    } else {
        let s = nat_to_decimal(n / 10).concat(digit_str(n % 10));
        assert(s@ =~= decimal_nat(n as nat));
        s
    }
}

/// Writes `n` out in decimal.
pub fn to_decimal(n: i32) -> (s: String)
    ensures
        s@ == decimal(n as int),
{
    if n < 0 {
        let magnitude: u32 = (-(n as i64)) as u32;
        proof {
            reveal_strlit("-");
        }
        let s = "-".to_owned().concat(nat_to_decimal(magnitude).as_str());
        assert(s@ =~= decimal(n as int));
        s
    } else {
        nat_to_decimal(n as u32)
    }
}

} // verus!
