//! The number prefix of a numbered line: a decimal number right-aligned in
//! a field of six columns, followed by a tab.

use vstd::prelude::*;
use vstd::string::*;

verus! {

/// Width of the field in which a line number is right-aligned.
pub const NUMBER_WIDTH: usize = 6;

/// The character that stands for the decimal digit `d`.
pub open spec fn digit_char(d: nat) -> char
    recommends
        d < 10,
{
    if d == 0 {
        '0'
    } else if d == 1 {
        '1'
    } else if d == 2 {
        '2'
    } else if d == 3 {
        '3'
    } else if d == 4 {
        '4'
    } else if d == 5 {
        '5'
    } else if d == 6 {
        '6'
    } else if d == 7 {
        '7'
    } else if d == 8 {
        '8'
    } else {
        '9'
    }
}

/// The decimal numeral of `n`, most significant digit first, without
/// leading zeros (zero itself is `"0"`).
pub open spec fn decimal(n: nat) -> Seq<char>
    decreases n,
{
    if n < 10 {
        seq![digit_char(n)]
    } else {
        decimal(n / 10).push(digit_char(n % 10))
    }
}

/// `width - text.len()` spaces, or none where `text` already fills the field.
pub open spec fn padding(text: Seq<char>, width: nat) -> Seq<char> {
    Seq::new(
        if text.len() < width {
            (width - text.len()) as nat
        } else {
            0
        },
        |i: int| ' ',
    )
}

/// `text` right-aligned in a field of `width` columns. A text wider than the
/// field is kept whole.
pub open spec fn right_aligned(text: Seq<char>, width: nat) -> Seq<char> {
    padding(text, width) + text
}

/// The prefix of a line that carries the number `n`.
pub open spec fn number_prefix(n: nat) -> Seq<char> {
    right_aligned(decimal(n), NUMBER_WIDTH as nat).push('\t')
}

/// A line with its number in front.
pub open spec fn numbered(n: nat, line: Seq<char>) -> Seq<char> {
    number_prefix(n) + line
}

/// The one-character text of a decimal digit.
fn digit_text(d: u64) -> (text: &'static str)
    requires
        d < 10,
    ensures
        text@ == seq![digit_char(d as nat)],
{
    proof {
        reveal_strlit("0");
        reveal_strlit("1");
        reveal_strlit("2");
        reveal_strlit("3");
        reveal_strlit("4");
        reveal_strlit("5");
        reveal_strlit("6");
        reveal_strlit("7");
        reveal_strlit("8");
        reveal_strlit("9");
    }
    let text = if d == 0 {
        "0"
    } else if d == 1 {
        "1"
    } else if d == 2 {
        "2"
    } else if d == 3 {
        "3"
    } else if d == 4 {
        "4"
    } else if d == 5 {
        "5"
    } else if d == 6 {
        "6"
    } else if d == 7 {
        "7"
    } else if d == 8 {
        "8"
    } else {
        "9"
    };
    assert(text@ =~= seq![digit_char(d as nat)]);
    text
}

/// Appends the decimal numeral of `n` to `out` and returns how many digits
/// were written.
fn push_decimal(out: &mut String, n: u64) -> (digits: usize)
    ensures
        final(out)@ == old(out)@ + decimal(n as nat),
        digits == decimal(n as nat).len(),
        1 <= digits <= 20,
    decreases n,
{
    if n < 10 {
        out.append(digit_text(n));
        1
    } else {
        let higher: usize = push_decimal(out, n / 10);
        out.append(digit_text(n % 10));
        proof {
            lemma_decimal_len(n as nat);
            assert(final(out)@ =~= old(out)@ + decimal(n as nat));
        }
        higher + 1
    }
}

/// A numeral of a 64-bit number has between one and twenty digits, and one
/// digit more than the numeral of its tenth.
pub proof fn lemma_decimal_len(n: nat)
    ensures
        decimal(n).len() >= 1,
        n >= 10 ==> decimal(n).len() == decimal(n / 10).len() + 1,
        n <= u64::MAX ==> decimal(n).len() <= 20,
    decreases n,
{
    if n >= 10 {
        lemma_decimal_len(n / 10);
    }
    if n <= u64::MAX {
        reveal_with_fuel(pow10, 21);
        assert(pow10(20) == 100_000_000_000_000_000_000nat);
        lemma_decimal_bound(n, 20);
    }
}

/// A number below the `k`-th power of ten has at most `k` digits.
proof fn lemma_decimal_bound(n: nat, k: nat)
    requires
        k >= 1,
        n < pow10(k),
    ensures
        decimal(n).len() <= k,
    decreases k,
{
    reveal_with_fuel(pow10, 2);
    if n >= 10 {
        assert(k >= 2) by {
            if k == 1 {
                assert(pow10(1) == 10);
            }
        }
        assert(n / 10 < pow10((k - 1) as nat));
        lemma_decimal_bound(n / 10, (k - 1) as nat);
    }
}

/// Ten to the power of `k`.
pub open spec fn pow10(k: nat) -> nat
    decreases k,
{
    if k == 0 {
        1
    } else {
        10 * pow10((k - 1) as nat)
    }
}

/// The prefix of a numbered line: `n` in decimal, right-aligned in six
/// columns, then a tab.
pub fn format_number(n: u64) -> (text: String)
    ensures
        text@ == number_prefix(n as nat),
{
    let mut numeral = String::new();
    let digits: usize = push_decimal(&mut numeral, n);
    assert(numeral@ =~= decimal(n as nat));
    let mut text = String::new();
    let mut written: usize = digits;
    while written < NUMBER_WIDTH
        invariant
            digits <= written,
            written == digits || written <= NUMBER_WIDTH,
            digits == decimal(n as nat).len(),
            text@ =~= Seq::new((written - digits) as nat, |i: int| ' '),
        decreases NUMBER_WIDTH - written,
    {
        proof {
            reveal_strlit(" ");
        }
        text.append(" ");
        written = written + 1;
    }
    assert(text@ =~= padding(decimal(n as nat), NUMBER_WIDTH as nat));
    text.append(numeral.as_str());
    proof {
        reveal_strlit("\t");
    }
    text.append("\t");
    assert(text@ =~= number_prefix(n as nat));
    text
}

} // verus!
