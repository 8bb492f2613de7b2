//! Small building blocks for producing display text.
use vstd::prelude::*;

verus! {

/// Whether two strings hold the same characters.
pub fn same_text(a: &str, b: &str) -> (r: bool)
    ensures
        r == (a@ == b@),
{
    let n = a.unicode_len();
    if n != b.unicode_len() {
        return false;
    }
    let mut i: usize = 0;
    while i < n
        invariant
            n == a@.len(),
            n == b@.len(),
            i <= n,
            forall|j: int| 0 <= j < i ==> a@[j] == b@[j],
        decreases n - i,
    {
        if a.get_char(i) != b.get_char(i) {
            return false;
        }
        i = i + 1;
    }
    assert(a@ =~= b@);
    true
}

/// The decimal digit characters, by value.
pub open spec fn digit_chars() -> Seq<char> {
    seq!['0', '1', '2', '3', '4', '5', '6', '7', '8', '9']
}

/// The character of a single decimal digit.
pub open spec fn digit_char(d: nat) -> char {
    digit_chars()[d as int]
}

/// The decimal writing of a natural number, without leading zeros.
pub open spec fn decimal(n: nat) -> Seq<char>
    decreases n,
{
    if n < 10 {
        seq![digit_char(n)]
    } else {
        decimal(n / 10).push(digit_char(n % 10))
    }
}

/// A number below one hundred, written with exactly two digits.
pub open spec fn two_digits(n: nat) -> Seq<char> {
    seq![digit_char(n / 10), digit_char(n % 10)]
}

/// A temperature given in tenths of a degree, written with one decimal place
/// and the degree-Fahrenheit unit.
pub open spec fn fahrenheit_text(tenths: int) -> Seq<char> {
    let mag: nat = if tenths < 0 { (-tenths) as nat } else { tenths as nat };
    let sign = if tenths < 0 { "-"@ } else { Seq::<char>::empty() };
    sign + decimal(mag / 10) + "."@ + seq![digit_char(mag % 10)] + "°F"@
}

/// The one-character text of a digit.
fn digit_text(d: u64) -> (r: &'static str)
    requires
        d < 10,
    ensures
        r@ == seq![digit_char(d as nat)],
{
    proof {
        reveal_strlit("0");
        reveal_strlit("1");
        reveal_strlit("2");
        reveal_strlit("3");
        reveal_strlit("4");
        reveal_strlit("5");
        reveal_strlit("6");
        reveal_strlit("7");
        reveal_strlit("8");
        reveal_strlit("9");
    }
    let r = match d {
        0 => "0",
        1 => "1",
        2 => "2",
        3 => "3",
        4 => "4",
        5 => "5",
        6 => "6",
        7 => "7",
        8 => "8",
        _ => "9",
    };
    assert(r@ =~= seq![digit_char(d as nat)]);
    r
}

/// Appends the decimal writing of `n`.
pub fn push_decimal(s: &mut String, n: u64)
    ensures
        final(s)@ == old(s)@ + decimal(n as nat),
    decreases n,
{
    if n < 10 {
        s.append(digit_text(n));
    } else {
        push_decimal(s, n / 10);
        s.append(digit_text(n % 10));
        assert(final(s)@ =~= old(s)@ + decimal(n as nat));
    }
}

/// Appends `n` as exactly two digits.
pub fn push_two_digits(s: &mut String, n: u32)
    requires
        n < 100,
    ensures
        final(s)@ == old(s)@ + two_digits(n as nat),
{
    s.append(digit_text((n / 10) as u64));
    s.append(digit_text((n % 10) as u64));
    assert(final(s)@ =~= old(s)@ + two_digits(n as nat));
}

/// Writes a temperature given in tenths of a degree Fahrenheit, such as
/// `"72.3°F"` for 723.
pub fn format_fahrenheit(tenths: i64) -> (r: String)
    ensures
        r@ == fahrenheit_text(tenths as int),
{
    let mut s = String::new();
    let mag: u64;
    if tenths < 0 {
        s.append("-");
        mag = ((0 - (tenths + 1)) as u64) + 1;
    } else {
        mag = tenths as u64;
    }
    push_decimal(&mut s, mag / 10);
    s.append(".");
    s.append(digit_text(mag % 10));
    s.append("°F");
    assert(s@ =~= fahrenheit_text(tenths as int));
    s
}

} // verus!
