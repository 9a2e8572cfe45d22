//! Small helpers on text.

use vstd::prelude::*;
use vstd::string::{StrSliceExecFns, StringExecFns};

verus! {

/// Whether two texts hold the same characters.
pub fn same_text(a: &str, b: &str) -> (same: bool)
    ensures
        same == (a@ == b@),
{
    a.to_owned() == b.to_owned()
}

/// The character that is written for the digit `d`.
pub open spec fn digit(d: nat) -> char {
    if d == 0 {
        '0'
    } else if d == 1 {
        '1'
    } else if d == 2 {
        '2'
    } else if d == 3 {
        '3'
    } else if d == 4 {
        '4'
    } else if d == 5 {
        '5'
    } else if d == 6 {
        '6'
    } else if d == 7 {
        '7'
    } else if d == 8 {
        '8'
    } else {
        '9'
    }
}

/// The number `n` written in base ten, without leading zeros.
pub open spec fn decimal(n: nat) -> Seq<char>
    decreases n,
{
    if n < 10 {
        seq![digit(n)]
    } else {
        decimal(n / 10).push(digit(n % 10))
    }
}

/// Two numbers that are written alike are the same number.
pub proof fn lemma_decimal_injective(a: nat, b: nat)
    requires
        decimal(a) == decimal(b),
    ensures
        a == b,
    decreases a,
{
    if a < 10 && b < 10 {
        assert(decimal(a)[0] == digit(a));
        assert(decimal(b)[0] == digit(b));
    } else if a >= 10 && b >= 10 {
        assert(decimal(a).last() == digit(a % 10));
        assert(decimal(b).last() == digit(b % 10));
        assert(decimal(a).drop_last() =~= decimal(a / 10));
        assert(decimal(b).drop_last() =~= decimal(b / 10));
        lemma_decimal_injective(a / 10, b / 10);
    } else {
        lemma_decimal_len(a);
        lemma_decimal_len(b);
    }
}

/// A number below ten is written with one digit, any other with more.
pub proof fn lemma_decimal_len(n: nat)
    ensures
        n < 10 ==> decimal(n).len() == 1,
        n >= 10 ==> decimal(n).len() >= 2,
    decreases n,
{
    if n >= 10 {
        lemma_decimal_len(n / 10);
    }
}

/// The text of one digit.
fn digit_text(d: usize) -> (text: &'static str)
    requires
        d < 10,
    ensures
        text@ == seq![digit(d as nat)],
{
    proof {
        reveal_strlit("0");
        reveal_strlit("1");
        reveal_strlit("2");
        reveal_strlit("3");
        reveal_strlit("4");
        reveal_strlit("5");
        reveal_strlit("6");
        reveal_strlit("7");
        reveal_strlit("8");
        reveal_strlit("9");
    }
    let text = if d == 0 {
        "0"
    } else if d == 1 {
        "1"
    } else if d == 2 {
        "2"
    } else if d == 3 {
        "3"
    } else if d == 4 {
        "4"
    } else if d == 5 {
        "5"
    } else if d == 6 {
        "6"
    } else if d == 7 {
        "7"
    } else if d == 8 {
        "8"
    } else {
        "9"
    };
    assert(text@ =~= seq![digit(d as nat)]);
    text
}

/// Writes a number in base ten.
pub fn decimal_text(n: usize) -> (text: String)
    ensures
        text@ == decimal(n as nat),
    decreases n,
{
    if n < 10 {
        digit_text(n).to_owned()
    } else {
        let mut text = decimal_text(n / 10);
        text.append(digit_text(n % 10));
        text
    }
}

/// How one character is written inside a string literal: a quote and a
/// backslash get a backslash in front.
pub open spec fn escaped_char(c: char) -> Seq<char> {
    if c == '"' {
        seq!['\\', '"']
    } else if c == '\\' {
        seq!['\\', '\\']
    } else {
        seq![c]
    }
}

/// How a text is written inside a string literal.
pub open spec fn escaped(text: Seq<char>) -> Seq<char> {
    text.map_values(|c: char| escaped_char(c)).flatten()
}

/// The string literal that stands for a text.
pub open spec fn quoted(text: Seq<char>) -> Seq<char> {
    seq!['"'] + escaped(text) + seq!['"']
}

/// Writes a text as a string literal.
pub fn quote_text(text: &str) -> (literal: String)
    ensures
        literal@ == quoted(text@),
{
    proof {
        reveal_strlit("\"");
        reveal_strlit("\\\"");
        reveal_strlit("\\\\");
        assert("\""@ =~= seq!['"']);
        assert("\\\""@ =~= seq!['\\', '"']);
        assert("\\\\"@ =~= seq!['\\', '\\']);
    }
    let ghost escape = |c: char| escaped_char(c);
    let mut literal = "\"".to_owned();
    let n = text.unicode_len();
    let mut i: usize = 0;
    proof {
        assert(text@.take(0).map_values(escape) =~= Seq::<Seq<char>>::empty());
        assert(seq!['"'] + Seq::<char>::empty() =~= seq!['"']);
    }
    while i < n
        invariant
            i <= n,
            n == text@.len(),
            escape == |c: char| escaped_char(c),
            literal@ == seq!['"'] + text@.take(i as int).map_values(escape).flatten(),
            "\\\""@ == seq!['\\', '"'],
            "\\\\"@ == seq!['\\', '\\'],
        decreases n - i,
    {
        let c = text.get_char(i);
        let ghost before = text@.take(i as int).map_values(escape);
        proof {
            assert(text@.take(i + 1).map_values(escape) =~= before.push(escaped_char(c)));
            before.lemma_flatten_push(escaped_char(c));
            assert(seq!['"'] + (before.flatten() + escaped_char(c)) =~= seq!['"']
                + before.flatten() + escaped_char(c));
        }
        if c == '"' {
            literal.append("\\\"");
        } else if c == '\\' {
            literal.append("\\\\");
        } else {
            let one = text.substring_char(i, i + 1);
            proof {
                assert(text@.subrange(i as int, i + 1) =~= seq![c]);
            }
            literal.append(one);
        }
        i = i + 1;
    }
    proof {
        assert(text@.take(n as int) =~= text@);
    }
    literal.append("\"");
    literal
}

} // verus!
