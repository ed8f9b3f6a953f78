//! Small text helpers shared by the emitters.

use vstd::prelude::*;

verus! {

/// The texts of a sequence of strings.
pub open spec fn views(v: Seq<String>) -> Seq<Seq<char>> {
    v.map_values(|s: String| s@)
}

/// The character of a decimal digit.
pub open spec fn digit_char(d: nat) -> char {
    if d == 0 { '0' }
    else if d == 1 { '1' }
    else if d == 2 { '2' }
    else if d == 3 { '3' }
    else if d == 4 { '4' }
    else if d == 5 { '5' }
    else if d == 6 { '6' }
    else if d == 7 { '7' }
    else if d == 8 { '8' }
    else { '9' }
}

/// Decimal notation of a natural number, without leading zeros.
pub open spec fn decimal(n: nat) -> Seq<char>
    decreases n,
{
    if n < 10 {
        seq![digit_char(n)]
    } else {
        decimal(n / 10) + seq![digit_char(n % 10)]
    }
}

/// Appends one decimal digit.
fn append_digit(s: &mut String, d: usize)
    requires
        d < 10,
    ensures
        final(s)@ == old(s)@ + seq![digit_char(d as nat)],
{
    let lit: &str = if d == 0 { "0" }
    else if d == 1 { "1" }
    else if d == 2 { "2" }
    else if d == 3 { "3" }
    else if d == 4 { "4" }
    else if d == 5 { "5" }
    else if d == 6 { "6" }
    else if d == 7 { "7" }
    else if d == 8 { "8" }
    else { "9" };
    proof {
        reveal_strlit("0");
        reveal_strlit("1");
        reveal_strlit("2");
        reveal_strlit("3");
        reveal_strlit("4");
        reveal_strlit("5");
        reveal_strlit("6");
        reveal_strlit("7");
        reveal_strlit("8");
        reveal_strlit("9");
    }
    assert(lit@ =~= seq![digit_char(d as nat)]);
    s.append(lit);
}

/// Appends the decimal notation of `n`.
pub fn append_decimal(s: &mut String, n: usize)
    ensures
        final(s)@ == old(s)@ + decimal(n as nat),
    decreases n,
{
    if n < 10 {
        append_digit(s, n);
    } else {
        let ghost before = s@;
        append_decimal(s, n / 10);
        append_digit(s, n % 10);
        assert(s@ =~= before + decimal(n as nat));
    }
}

/// `"Option<" + x + ">"` when `wrap` holds, `x` otherwise.
pub open spec fn wrap_option(wrap: bool, x: Seq<char>) -> Seq<char> {
    if wrap {
        "Option<"@ + x + ">"@
    } else {
        x
    }
}

/// Builds the text of `wrap_option`.
pub fn wrap_option_exec(wrap: bool, x: String) -> (r: String)
    ensures
        r@ == wrap_option(wrap, x@),
{
    if wrap {
        let mut s = String::new();
        s.append("Option<");
        s.append(x.as_str());
        s.append(">");
        s
    } else {
        x
    }
}

} // verus!
