//! Renderings of plain values as text: integers in decimal, and lists of
//! strings in the form that `{:?}` prints.

use vstd::prelude::*;
use vstd::string::StringExecFns;

verus! {

/// The character that shows the decimal digit `d`.
pub open spec fn digit_char(d: int) -> char
    recommends
        0 <= d <= 9,
{
    if d == 0 {
        '0'
    } else if d == 1 {
        '1'
    } else if d == 2 {
        '2'
    } else if d == 3 {
        '3'
    } else if d == 4 {
        '4'
    } else if d == 5 {
        '5'
    } else if d == 6 {
        '6'
    } else if d == 7 {
        '7'
    } else if d == 8 {
        '8'
    } else {
        '9'
    }
}

/// The decimal digits of `n`, most significant first, without leading zeros.
pub open spec fn nat_text(n: nat) -> Seq<char>
    decreases n,
{
    if n < 10 {
        seq![digit_char(n as int)]
    } else {
        nat_text(n / 10).push(digit_char((n % 10) as int))
    }
}

/// The decimal rendering of an integer: a minus sign if it is negative, then
/// the digits of its magnitude.
pub open spec fn int_text(v: int) -> Seq<char> {
    if v < 0 {
        seq!['-'] + nat_text((-v) as nat)
    } else {
        nat_text(v as nat)
    }
}

/// The one-character string for a decimal digit.
fn digit_str(d: u64) -> (s: &'static str)
    requires
        d < 10,
    ensures
        s@ == seq![digit_char(d as int)],
{
    proof {
        reveal_strlit("0");
        reveal_strlit("1");
        reveal_strlit("2");
        reveal_strlit("3");
        reveal_strlit("4");
        reveal_strlit("5");
        reveal_strlit("6");
        reveal_strlit("7");
        reveal_strlit("8");
        reveal_strlit("9");
    }
    if d == 0 {
        "0"
    } else if d == 1 {
        "1"
    } else if d == 2 {
        "2"
    } else if d == 3 {
        "3"
    } else if d == 4 {
        "4"
    } else if d == 5 {
        "5"
    } else if d == 6 {
        "6"
    } else if d == 7 {
        "7"
    } else if d == 8 {
        "8"
    } else {
        "9"
    }
}

/// Appends the decimal digits of `n` to `out`.
fn push_nat(out: &mut String, n: u64)
    ensures
        final(out)@ == old(out)@ + nat_text(n as nat),
    decreases n,
{
    if n >= 10 {
        push_nat(out, n / 10);
    }
    out.append(digit_str(n % 10));
}

/// The decimal rendering of `v`, as `Display` prints a signed integer.
pub fn decimal(v: i64) -> (text: String)
    ensures
        text@ == int_text(v as int),
{
    let mut out = String::new();
    if v < 0 {
        proof {
            reveal_strlit("-");
        }
        out.append("-");
        let magnitude: u64 = if v == i64::MIN {
            9223372036854775808u64
        } else {
            (-v) as u64
        };
        push_nat(&mut out, magnitude);
    } else {
        push_nat(&mut out, v as u64);
    }
    out
}

/// A number's digits are at least one character, more than one from 10 on,
/// and none of them is a minus sign.
proof fn lemma_nat_text_is_digits(n: nat)
    ensures
        n < 10 ==> nat_text(n).len() == 1,
        n >= 10 ==> nat_text(n).len() >= 2,
        forall|i: int| 0 <= i < nat_text(n).len() ==> nat_text(n)[i] != '-',
    decreases n,
{
    if n >= 10 {
        lemma_nat_text_is_digits(n / 10);
    }
}

/// Two natural numbers with the same digits are the same number.
proof fn lemma_nat_text_injective(a: nat, b: nat)
    requires
        nat_text(a) == nat_text(b),
    ensures
        a == b,
    decreases a,
{
    lemma_nat_text_is_digits(a);
    lemma_nat_text_is_digits(b);
    if a >= 10 {
        assert(b >= 10);
        let high_a = nat_text(a / 10);
        let high_b = nat_text(b / 10);
        let low_a = digit_char((a % 10) as int);
        let low_b = digit_char((b % 10) as int);
        assert(nat_text(a) == high_a.push(low_a));
        assert(nat_text(b) == high_b.push(low_b));
        assert(high_a.push(low_a).drop_last() == high_a);
        assert(high_b.push(low_b).drop_last() == high_b);
        assert(high_a.push(low_a).last() == low_a);
        assert(high_b.push(low_b).last() == low_b);
        assert(a % 10 == b % 10);
        lemma_nat_text_injective(a / 10, b / 10);
    } else {
        assert(b < 10);
        assert(nat_text(a)[0] == digit_char(a as int));
        assert(nat_text(b)[0] == digit_char(b as int));
    }
}

/// The decimal rendering tells integers apart: two integers that are shown
/// by the same text are the same integer.
pub proof fn lemma_int_text_injective(a: int, b: int)
    requires
        int_text(a) == int_text(b),
    ensures
        a == b,
{
    let magnitude_a: nat = if a < 0 { (-a) as nat } else { a as nat };
    let magnitude_b: nat = if b < 0 { (-b) as nat } else { b as nat };
    let digits_a = nat_text(magnitude_a);
    let digits_b = nat_text(magnitude_b);
    lemma_nat_text_is_digits(magnitude_a);
    lemma_nat_text_is_digits(magnitude_b);
    let signed_a = seq!['-'] + digits_a;
    let signed_b = seq!['-'] + digits_b;
    assert(signed_a[0] == '-' && signed_b[0] == '-');
    assert(digits_a[0] != '-' && digits_b[0] != '-');
    if a < 0 && b < 0 {
        assert(signed_a.skip(1) == digits_a);
        assert(signed_b.skip(1) == digits_b);
        lemma_nat_text_injective(magnitude_a, magnitude_b);
    } else if a >= 0 && b >= 0 {
        lemma_nat_text_injective(magnitude_a, magnitude_b);
    } else {
        assert(int_text(a)[0] != int_text(b)[0]);
    }
}

/// What `{:?}` prints for a list of strings: the strings in order, each
/// quoted and escaped, between square brackets.
pub uninterp spec fn debug_text(items: Seq<Seq<char>>) -> Seq<char>;

/// Formats a list of strings with std's `Debug` impl for `Vec<String>`. The
/// contract claims only that the text depends on nothing but the strings.
#[verifier::external_body]
pub(crate) fn debug_list(items: &Vec<String>) -> (text: String)
    ensures
        text@ == debug_text(items.deep_view()),
{
    format!("{:?}", items)
}

} // verus!
