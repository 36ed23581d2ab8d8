//! The text of the report that the assertion-failure hook prints when the
//! parser engine finds one of its own invariants broken.
use vstd::prelude::*;
use vstd::string::StringExecFns;

verus! {

/// The character of a decimal digit `d`.
pub open spec fn digit_char(d: nat) -> char {
    if d == 0 {
        '0'
    } else if d == 1 {
        '1'
    } else if d == 2 {
        '2'
    } else if d == 3 {
        '3'
    } else if d == 4 {
        '4'
    } else if d == 5 {
        '5'
    } else if d == 6 {
        '6'
    } else if d == 7 {
        '7'
    } else if d == 8 {
        '8'
    } else {
        '9'
    }
}

/// `n` written in decimal, without leading zeros (`0` is `"0"`).
pub open spec fn decimal(n: nat) -> Seq<char>
    decreases n,
{
    if n < 10 {
        seq![digit_char(n)]
    } else {
        decimal(n / 10).push(digit_char(n % 10))
    }
}

/// The report for a failed assertion `assertion`, in function `function` at
/// line `line` of file `file`.
pub open spec fn report_text(
    assertion: Seq<char>,
    file: Seq<char>,
    line: nat,
    function: Seq<char>,
) -> Seq<char> {
    "Assertion failed: "@ + assertion + ", file: "@ + file + ", line: "@ + decimal(line)
        + ", function: "@ + function
}

/// The one-character text of the decimal digit `d`.
fn digit_text(d: u32) -> (r: &'static str)
    requires
        d < 10,
    ensures
        r@ == seq![digit_char(d as nat)],
{
    proof {
        reveal_strlit("0");
        reveal_strlit("1");
        reveal_strlit("2");
        reveal_strlit("3");
        reveal_strlit("4");
        reveal_strlit("5");
        reveal_strlit("6");
        reveal_strlit("7");
        reveal_strlit("8");
        reveal_strlit("9");
    }
    if d == 0 {
        "0"
    } else if d == 1 {
        "1"
    } else if d == 2 {
        "2"
    } else if d == 3 {
        "3"
    } else if d == 4 {
        "4"
    } else if d == 5 {
        "5"
    } else if d == 6 {
        "6"
    } else if d == 7 {
        "7"
    } else if d == 8 {
        "8"
    } else {
        "9"
    }
}

/// Appends `n`, written in decimal, to `out`.
pub fn push_decimal(out: &mut String, n: u32)
    ensures
        final(out)@ == old(out)@ + decimal(n as nat),
    decreases n,
{
    if n >= 10 {
        push_decimal(out, n / 10);
    }
    out.append(digit_text(n % 10));
    assert(out@ =~= old(out)@ + decimal(n as nat));
}

/// The report for a failed assertion, as the hook prints it:
/// `Assertion failed: <assertion>, file: <file>, line: <line>, function: <function>`.
pub fn assertion_report(assertion: &str, file: &str, line: u32, function: &str) -> (r: String)
    ensures
        r@ == report_text(assertion@, file@, line as nat, function@),
{
    let mut out = String::new();
    out.append("Assertion failed: ");
    out.append(assertion);
    out.append(", file: ");
    out.append(file);
    out.append(", line: ");
    push_decimal(&mut out, line);
    out.append(", function: ");
    out.append(function);
    out
}

} // verus!
