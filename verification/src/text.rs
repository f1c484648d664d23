//! Small helpers on text.

use vstd::prelude::*;

verus! {

/// Whether `text` reads exactly as `literal`.
pub fn text_is(text: &String, literal: &str) -> (same: bool)
    ensures
        same == (text@ == literal@),
{
    let owned = String::from_str(literal);
    text.eq(&owned)
}

/// A copy of an optional text.
pub fn copy_optional(text: &Option<String>) -> (copy: Option<String>)
    ensures
        copy.deep_view() == text.deep_view(),
{
    match text {
        Some(text) => Some(text.clone()),
        None => None,
    }
}

/// The first `n` of `parts`, with `separator` between each two.
pub open spec fn joined(parts: Seq<Seq<char>>, separator: Seq<char>, n: int) -> Seq<char>
    decreases n,
{
    if n <= 0 {
        Seq::empty()
    } else if n == 1 {
        parts[0]
    } else {
        joined(parts, separator, n - 1) + separator + parts[n - 1]
    }
}

/// All of `parts`, with `separator` between each two.
pub open spec fn join(parts: Seq<Seq<char>>, separator: Seq<char>) -> Seq<char> {
    joined(parts, separator, parts.len() as int)
}

/// The numeral of a digit.
pub open spec fn digit(d: int) -> Seq<char> {
    if d == 0 {
        "0"@
    } else if d == 1 {
        "1"@
    } else if d == 2 {
        "2"@
    } else if d == 3 {
        "3"@
    } else if d == 4 {
        "4"@
    } else if d == 5 {
        "5"@
    } else if d == 6 {
        "6"@
    } else if d == 7 {
        "7"@
    } else if d == 8 {
        "8"@
    } else {
        "9"@
    }
}

/// The decimal numeral of `n`, without leading zeros.
pub open spec fn decimal(n: nat) -> Seq<char>
    decreases n,
{
    if n < 10 {
        digit(n as int)
    } else {
        decimal(n / 10) + digit((n % 10) as int)
    }
}

fn digit_text(d: usize) -> (text: &'static str)
    requires
        d < 10,
    ensures
        text@ == digit(d as int),
{
    if d == 0 {
        "0"
    } else if d == 1 {
        "1"
    } else if d == 2 {
        "2"
    } else if d == 3 {
        "3"
    } else if d == 4 {
        "4"
    } else if d == 5 {
        "5"
    } else if d == 6 {
        "6"
    } else if d == 7 {
        "7"
    } else if d == 8 {
        "8"
    } else {
        "9"
    }
}

/// Appends the decimal numeral of `n` to `out`.
pub fn append_decimal(out: &mut String, n: usize)
    ensures
        final(out)@ == old(out)@ + decimal(n as nat),
    decreases n,
{
    if n >= 10 {
        append_decimal(out, n / 10);
    }
    out.append(digit_text(n % 10));
    assert(out@ =~= old(out)@ + decimal(n as nat));
}

/// Appends `parts` to `out`, with `separator` between each two.
pub fn append_joined(out: &mut String, parts: &Vec<String>, separator: &str)
    ensures
        final(out)@ == old(out)@ + join(parts.deep_view(), separator@),
{
    let mut i: usize = 0;
    while i < parts.len()
        invariant
            i <= parts.len(),
            out@ == old(out)@ + joined(parts.deep_view(), separator@, i as int),
        decreases parts.len() - i,
    {
        if i > 0 {
            out.append(separator);
        }
        out.append(parts[i].as_str());
        assert(out@ =~= old(out)@ + joined(parts.deep_view(), separator@, i + 1));
        i += 1;
    }
}

} // verus!
