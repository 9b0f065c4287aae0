use vstd::prelude::*;

verus! {

/// The character of a decimal digit.
pub open spec fn digit_char(d: nat) -> char {
    if d == 0 { '0' }
    else if d == 1 { '1' }
    else if d == 2 { '2' }
    else if d == 3 { '3' }
    else if d == 4 { '4' }
    else if d == 5 { '5' }
    else if d == 6 { '6' }
    else if d == 7 { '7' }
    else if d == 8 { '8' }
    else { '9' }
}

/// The value of a decimal digit character (`0` for any other character).
pub open spec fn digit_value(c: char) -> nat {
    if c == '1' { 1 }
    else if c == '2' { 2 }
    else if c == '3' { 3 }
    else if c == '4' { 4 }
    else if c == '5' { 5 }
    else if c == '6' { 6 }
    else if c == '7' { 7 }
    else if c == '8' { 8 }
    else if c == '9' { 9 }
    else { 0 }
}

/// The decimal notation of `n`, without leading zeros.
pub open spec fn decimal_digits(n: nat) -> Seq<char>
    decreases n,
{
    if n < 10 {
        seq![digit_char(n)]
    } else {
        decimal_digits(n / 10).push(digit_char(n % 10))
    }
}

/// The number that a string of decimal digits denotes.
pub open spec fn decimal_value(s: Seq<char>) -> nat
    decreases s.len(),
{
    if s.len() == 0 {
        0
    } else {
        decimal_value(s.drop_last()) * 10 + digit_value(s.last())
    }
}

fn push_digit(s: &mut String, d: usize)
    requires
        d < 10,
    ensures
        final(s)@ == old(s)@.push(digit_char(d as nat)),
{
    proof {
        reveal_strlit("0");
        reveal_strlit("1");
        reveal_strlit("2");
        reveal_strlit("3");
        reveal_strlit("4");
        reveal_strlit("5");
        reveal_strlit("6");
        reveal_strlit("7");
        reveal_strlit("8");
        reveal_strlit("9");
    }
    let digit: &str = if d == 0 { "0" }
        else if d == 1 { "1" }
        else if d == 2 { "2" }
        else if d == 3 { "3" }
        else if d == 4 { "4" }
        else if d == 5 { "5" }
        else if d == 6 { "6" }
        else if d == 7 { "7" }
        else if d == 8 { "8" }
        else { "9" };
    s.append(digit);
    assert(final(s)@ =~= old(s)@.push(digit_char(d as nat)));
}

fn push_decimal(s: &mut String, n: usize)
    ensures
        final(s)@ == old(s)@ + decimal_digits(n as nat),
    decreases n,
{
    if n >= 10 {
        push_decimal(s, n / 10);
    }
    push_digit(s, n % 10);
    assert(final(s)@ =~= old(s)@ + decimal_digits(n as nat));
}

/// The decimal text of a counter, as the score, level and line counters show it.
pub fn decimal_text(n: usize) -> (res: String)
    ensures
        res@ == decimal_digits(n as nat),
{
    let mut s = String::new();
    push_decimal(&mut s, n);
    assert(s@ =~= decimal_digits(n as nat));
    s
}

/// A counter's text denotes the counter's value.
pub proof fn decimal_digits_denote_value(n: nat)
    ensures
        decimal_value(decimal_digits(n)) == n,
        decimal_digits(n).len() > 0,
    decreases n,
{
    if n < 10 {
        let s = decimal_digits(n);
        assert(s.drop_last() =~= Seq::<char>::empty());
        assert(s.last() == digit_char(n));
        assert(digit_value(digit_char(n)) == n);
        assert(decimal_value(s) == decimal_value(s.drop_last()) * 10 + digit_value(s.last()));
    } else {
        decimal_digits_denote_value(n / 10);
        let s = decimal_digits(n);
        assert(s.drop_last() =~= decimal_digits(n / 10));
        assert(s.last() == digit_char(n % 10));
        assert(digit_value(digit_char(n % 10)) == n % 10);
        assert(decimal_value(s) == decimal_value(s.drop_last()) * 10 + digit_value(s.last()));
        assert(n == (n / 10) * 10 + n % 10) by (nonlinear_arith);
    }
}

/// Whether `c` is one of the characters `0` to `9`.
pub open spec fn is_digit(c: char) -> bool {
    '0' <= c && c <= '9'
}

/// Whether `s` is a non-empty string of decimal digits.
pub open spec fn is_digit_string(s: Seq<char>) -> bool {
    s.len() > 0 && forall|i: int| 0 <= i < s.len() ==> is_digit(#[trigger] s[i])
}

/// The decimal notation of a number is made of digits only.
pub proof fn decimal_digits_are_digits(n: nat)
    ensures
        is_digit_string(decimal_digits(n)),
    decreases n,
{
    if n >= 10 {
        decimal_digits_are_digits(n / 10);
        let s = decimal_digits(n);
        assert forall|i: int| 0 <= i < s.len() implies is_digit(#[trigger] s[i]) by {
            if i < s.len() - 1 {
                assert(s[i] == decimal_digits(n / 10)[i]);
            }
        }
    }
}

/// The line under `GAME OVER` that reports the final score, level and line count.
pub open spec fn spec_game_over_summary(score: nat, level: nat, lines: nat) -> Seq<char> {
    "Score : "@ + decimal_digits(score) + "   Level : "@ + decimal_digits(level) + "   Lines : "@
        + decimal_digits(lines)
}

/// The game-over line reads `Score : `, then a string of digits that denotes the
/// score, `   Level : `, digits that denote the level, `   Lines : ` and digits
/// that denote the line count.
pub proof fn game_over_summary_reports_each_number(score: nat, level: nat, lines: nat)
    ensures
        exists|s: Seq<char>, l: Seq<char>, n: Seq<char>|
            {
                &&& is_digit_string(s) && decimal_value(s) == score
                &&& is_digit_string(l) && decimal_value(l) == level
                &&& is_digit_string(n) && decimal_value(n) == lines
                &&& #[trigger] spec_game_over_summary(score, level, lines) == "Score : "@ + s + "   Level : "@ + l
                    + "   Lines : "@ + n
            },
{
    let s = decimal_digits(score);
    let l = decimal_digits(level);
    let n = decimal_digits(lines);
    decimal_digits_denote_value(score);
    decimal_digits_denote_value(level);
    decimal_digits_denote_value(lines);
    decimal_digits_are_digits(score);
    decimal_digits_are_digits(level);
    decimal_digits_are_digits(lines);
    assert(spec_game_over_summary(score, level, lines) == "Score : "@ + s + "   Level : "@ + l + "   Lines : "@ + n);
}

/// Writes the line under `GAME OVER` for the given score, level and line count.
pub fn game_over_summary(score: usize, level: usize, lines: usize) -> (res: String)
    ensures
        res@ == spec_game_over_summary(score as nat, level as nat, lines as nat),
{
    let mut s = String::new();
    s.append("Score : ");
    push_decimal(&mut s, score);
    s.append("   Level : ");
    push_decimal(&mut s, level);
    s.append("   Lines : ");
    push_decimal(&mut s, lines);
    assert(s@ =~= spec_game_over_summary(score as nat, level as nat, lines as nat));
    s
}

} // verus!
