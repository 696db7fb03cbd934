//! Text: rendering integers and exit codes, and taking spaces out.

use vstd::prelude::*;
use vstd::string::*;

verus! {

/// The character that stands for the decimal digit `d`.
pub open spec fn digit_char(d: nat) -> char {
    if d == 0 {
        '0'
    } else if d == 1 {
        '1'
    } else if d == 2 {
        '2'
    } else if d == 3 {
        '3'
    } else if d == 4 {
        '4'
    } else if d == 5 {
        '5'
    } else if d == 6 {
        '6'
    } else if d == 7 {
        '7'
    } else if d == 8 {
        '8'
    } else {
        '9'
    }
}

/// The decimal numeral of `n`: no sign and no leading zero, `"0"` for zero.
pub open spec fn decimal(n: nat) -> Seq<char>
    decreases n,
{
    if n < 10 {
        seq![digit_char(n)]
    } else {
        decimal(n / 10).push(digit_char(n % 10))
    }
}

/// The decimal numeral of a signed number: a minus sign in front of the
/// numeral of its magnitude when it is negative.
pub open spec fn signed_decimal(n: int) -> Seq<char> {
    if n < 0 {
        seq!['-'] + decimal((-n) as nat)
    } else {
        decimal(n as nat)
    }
}

/// The text that stands for an exit code: `Some(<code>)`, or `None` where the
/// process ended without one (killed by a signal).
pub open spec fn exit_code_text(code: Option<i32>) -> Seq<char> {
    match code {
        Some(c) => "Some("@ + signed_decimal(c as int) + ")"@,
        None => "None"@,
    }
}

fn digit_str(d: u64) -> (s: &'static str)
    requires
        d < 10,
    ensures
        s@ == seq![digit_char(d as nat)],
{
    proof {
        reveal_strlit("0");
        reveal_strlit("1");
        reveal_strlit("2");
        reveal_strlit("3");
        reveal_strlit("4");
        reveal_strlit("5");
        reveal_strlit("6");
        reveal_strlit("7");
        reveal_strlit("8");
        reveal_strlit("9");
    }
    let s: &'static str = if d == 0 {
        "0"
    } else if d == 1 {
        "1"
    } else if d == 2 {
        "2"
    } else if d == 3 {
        "3"
    } else if d == 4 {
        "4"
    } else if d == 5 {
        "5"
    } else if d == 6 {
        "6"
    } else if d == 7 {
        "7"
    } else if d == 8 {
        "8"
    } else {
        "9"
    };
    assert(s@ =~= seq![digit_char(d as nat)]);
    s
}

/// Renders an unsigned number in decimal.
pub fn render_unsigned(n: u64) -> (s: String)
    ensures
        s@ == decimal(n as nat),
    decreases n,
{
    if n < 10 {
        String::from_str(digit_str(n))
    } else {
        let mut s = render_unsigned(n / 10);
        s.append(digit_str(n % 10));
        assert(s@ =~= decimal(n as nat));
        s
    }
}

/// Renders a signed number in decimal.
pub fn render_signed(n: i64) -> (s: String)
    ensures
        s@ == signed_decimal(n as int),
{
    if n < 0 {
        let magnitude: u64 = if n == i64::MIN {
            9223372036854775808u64
        } else {
            (-n) as u64
        };
        let mut s = String::from_str("-");
        let digits = render_unsigned(magnitude);
        s.append(digits.as_str());
        proof {
            reveal_strlit("-");
            assert(s@ =~= signed_decimal(n as int));
        }
        s
    } else {
        render_unsigned(n as u64)
    }
}

/// Renders an exit code as `Some(<code>)` or `None`.
pub fn render_exit_code(code: Option<i32>) -> (s: String)
    ensures
        s@ == exit_code_text(code),
{
    match code {
        Some(c) => {
            let mut s = String::from_str("Some(");
            let digits = render_signed(c as i64);
            s.append(digits.as_str());
            s.append(")");
            s
        },
        None => String::from_str("None"),
    }
}

/// `String::push` appends one character to the end of the string.
pub assume_specification[ String::push ](s: &mut String, c: char)
    ensures
        final(s)@ == old(s)@.push(c),
;

/// The text without its space characters.
pub open spec fn without_spaces(text: Seq<char>) -> Seq<char> {
    text.filter(|c: char| c != ' ')
}

/// Removes every space character from the text.
pub fn strip_spaces(text: &str) -> (r: String)
    ensures
        r@ == without_spaces(text@),
{
    let mut out = String::new();
    for c in it: text.chars()
        invariant
            it.seq() == text@,
            out@ == without_spaces(text@.take(it.index())),
    {
        let ghost before = text@.take(it.index());
        let ghost upto = text@.take(it.index() + 1);
        if c != ' ' {
            out.push(c);
        }
        proof {
            reveal(Seq::filter);
            assert(upto.drop_last() =~= before);
            assert(upto.last() == c);
        }
    }
    proof {
        assert(text@.take(text@.len() as int) =~= text@);
    }
    out
}

} // verus!
