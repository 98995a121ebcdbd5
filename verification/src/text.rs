//! Text building for error messages: decimal numerals and concatenation.

use vstd::prelude::*;

verus! {

/// The character of the decimal digit `d`.
pub open spec fn digit_char(d: int) -> char
    recommends
        0 <= d < 10,
{
    (48 + d) as char
}

/// The decimal numeral of `n`, most significant digit first, without leading zeros.
pub open spec fn decimal(n: nat) -> Seq<char>
    decreases n,
{
    if n < 10 {
        seq![digit_char(n as int)]
    } else {
        decimal(n / 10).push(digit_char((n % 10) as int))
    }
}

/// The number that a numeral stands for.
pub open spec fn number(s: Seq<char>) -> int
    decreases s.len(),
{
    if s.len() == 0 {
        0
    } else {
        10 * number(s.drop_last()) + (s.last() as int - '0' as int)
    }
}

/// The decimal numeral of a number stands for the number, in digits, and does not begin
/// with a zero unless it is that of zero.
pub proof fn law_decimal_reads_back(n: nat)
    ensures
        number(decimal(n)) == n,
        decimal(n).len() > 0,
        forall|i: int| 0 <= i < decimal(n).len() ==> '0' <= #[trigger] decimal(n)[i] <= '9',
        n > 0 ==> decimal(n)[0] != '0',
    decreases n,
{
    let s = decimal(n);
    if n < 10 {
        assert(s.drop_last() =~= Seq::empty());
        assert(number(s.drop_last()) == 0);
    } else {
        law_decimal_reads_back(n / 10);
        assert(s.drop_last() =~= decimal(n / 10));
        assert forall|i: int| 0 <= i < s.len() implies '0' <= #[trigger] s[i] <= '9' by {
            if i < s.len() - 1 {
                assert(s[i] == decimal(n / 10)[i]);
            }
        }
        assert(s[0] == decimal(n / 10)[0]);
    }
}

/// Appends the digit `d` to `s`.
fn append_digit(s: &mut String, d: usize)
    requires
        d < 10,
    ensures
        final(s)@ == old(s)@.push(digit_char(d as int)),
{
    proof {
        reveal_strlit("0");
        reveal_strlit("1");
        reveal_strlit("2");
        reveal_strlit("3");
        reveal_strlit("4");
        reveal_strlit("5");
        reveal_strlit("6");
        reveal_strlit("7");
        reveal_strlit("8");
        reveal_strlit("9");
    }
    let c: &'static str = match d {
        0 => "0",
        1 => "1",
        2 => "2",
        3 => "3",
        4 => "4",
        5 => "5",
        6 => "6",
        7 => "7",
        8 => "8",
        _ => "9",
    };
    s.append(c);
    assert(s@ =~= old(s)@.push(digit_char(d as int)));
}

/// Appends the decimal numeral of `n` to `s`.
pub(crate) fn append_number(s: &mut String, n: usize)
    ensures
        final(s)@ == old(s)@ + decimal(n as nat),
    decreases n,
{
    if n >= 10 {
        append_number(s, n / 10);
    }
    append_digit(s, n % 10);
    assert(s@ =~= old(s)@ + decimal(n as nat));
}

/// `before`, the numeral of `n`, then `after`.
pub(crate) fn message1(before: &str, n: usize, after: &str) -> (r: String)
    ensures
        r@ == before@ + decimal(n as nat) + after@,
{
    let mut s: String = before.to_owned();
    append_number(&mut s, n);
    s.append(after);
    s
}

/// `a`, the numeral of `m`, `b`, the numeral of `n`, then `c`.
pub(crate) fn message2(a: &str, m: usize, b: &str, n: usize, c: &str) -> (r: String)
    ensures
        r@ == a@ + decimal(m as nat) + b@ + decimal(n as nat) + c@,
{
    let mut s: String = message1(a, m, b);
    append_number(&mut s, n);
    s.append(c);
    s
}

/// The text of a setting, where it is set.
pub open spec fn text_of(setting: Option<&str>) -> Option<Seq<char>> {
    match setting {
        Some(s) => Some(s@),
        None => None,
    }
}

/// Whether two texts are the same sequence of characters.
pub(crate) fn same_text(a: &str, b: &str) -> (r: bool)
    ensures
        r == (a@ == b@),
{
    let a: String = a.to_owned();
    let b: String = b.to_owned();
    a.eq(&b)
}

/// Whether a text holds a NUL character.
pub(crate) fn has_nul(text: &str) -> (r: bool)
    ensures
        r == text@.contains('\0'),
{
    let mut found: bool = false;
    for c in chars: text.chars()
        invariant
            chars.seq() == text@,
            found == exists|i: int| 0 <= i < chars.index() && #[trigger] text@[i] == '\0',
    {
        if c == '\0' {
            found = true;
        }
    }
    found
}

} // verus!
