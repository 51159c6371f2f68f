//! Building text: concatenation, joining with a separator, decimal numbers,
//! and quoting.

use vstd::prelude::*;

verus! {

/// The parts joined into one text, with `separator` between neighbours:
/// nothing before the first part and nothing after the last one.
pub open spec fn joined(parts: Seq<Seq<char>>, separator: Seq<char>) -> Seq<char> {
    if parts.len() == 0 {
        Seq::empty()
    } else {
        parts[0] + parts.skip(1).map_values(|part: Seq<char>| separator + part).flatten()
    }
}

/// The character that stands for a digit below ten.
pub open spec fn digit(d: nat) -> char
    recommends
        d < 10,
{
    seq!['0', '1', '2', '3', '4', '5', '6', '7', '8', '9'][d as int]
}

/// The decimal numeral of `n`: most significant digit first, no sign, no
/// leading zero (but "0" for zero).
pub open spec fn decimal(n: nat) -> Seq<char>
    decreases n,
{
    if n < 10 {
        seq![digit(n)]
    } else {
        decimal(n / 10).push(digit(n % 10))
    }
}

/// What `std`'s `Debug` formatting writes for a piece of text: the text
/// between double quotes, with its special characters escaped.
pub uninterp spec fn debug_quoted(text: Seq<char>) -> Seq<char>;

/// Formats `text` with `std`'s `Debug` implementation for `str`, as
/// `format!("{:?}", text)` does. Of the result this claims only that it is
/// the text that `debug_quoted` names: that it depends on the characters of
/// `text` and on nothing else.
#[verifier::external_body]
pub(crate) fn debug_quote(text: &str) -> (quoted: String)
    ensures
        quoted@ == debug_quoted(text@),
{
    format!("{:?}", text)
}

/// All the lines, one after the other, with nothing put between them.
pub fn concat_lines(lines: &Vec<String>) -> (text: String)
    ensures
        text@ == lines.deep_view().flatten(),
{
    let ghost parts = lines.deep_view();
    let mut text = String::new();
    let mut i: usize = 0;
    while i < lines.len()
        invariant
            i <= lines.len(),
            parts == lines.deep_view(),
            text@ == parts.take(i as int).flatten(),
        decreases lines.len() - i,
    {
        text.append(lines[i].as_str());
        proof {
            assert(parts.take(i + 1) == parts.take(i as int).push(parts[i as int]));
            parts.take(i as int).lemma_flatten_push(parts[i as int]);
        }
        i += 1;
    }
    proof {
        assert(parts.take(i as int) == parts);
    }
    text
}

/// The parts joined by `separator`, as `[T]::join` does for strings.
pub fn join(parts: &Vec<String>, separator: &str) -> (text: String)
    ensures
        text@ == joined(parts.deep_view(), separator@),
{
    let ghost views = parts.deep_view();
    let ghost prefixed = views.skip(1).map_values(|part: Seq<char>| separator@ + part);
    let mut text = String::new();
    if parts.len() == 0 {
        return text;
    }
    text.append(parts[0].as_str());
    let mut i: usize = 1;
    while i < parts.len()
        invariant
            1 <= i <= parts.len(),
            views == parts.deep_view(),
            prefixed == views.skip(1).map_values(|part: Seq<char>| separator@ + part),
            text@ == views[0] + prefixed.take(i - 1).flatten(),
        decreases parts.len() - i,
    {
        text.append(separator);
        text.append(parts[i].as_str());
        proof {
            let next = separator@ + views[i as int];
            assert(prefixed.take(i as int) == prefixed.take(i - 1).push(next));
            prefixed.take(i - 1).lemma_flatten_push(next);
        }
        i += 1;
    }
    proof {
        assert(prefixed.take(i - 1) == prefixed);
    }
    text
}

/// The one-character text of a digit below ten.
fn digit_text(d: usize) -> (text: &'static str)
    requires
        d < 10,
    ensures
        text@ == seq![digit(d as nat)],
{
    proof {
        reveal_strlit("0");
        reveal_strlit("1");
        reveal_strlit("2");
        reveal_strlit("3");
        reveal_strlit("4");
        reveal_strlit("5");
        reveal_strlit("6");
        reveal_strlit("7");
        reveal_strlit("8");
        reveal_strlit("9");
    }
    let text = if d == 0 {
        "0"
    } else if d == 1 {
        "1"
    } else if d == 2 {
        "2"
    } else if d == 3 {
        "3"
    } else if d == 4 {
        "4"
    } else if d == 5 {
        "5"
    } else if d == 6 {
        "6"
    } else if d == 7 {
        "7"
    } else if d == 8 {
        "8"
    } else {
        "9"
    };
    text
}

/// The decimal numeral of `n`.
pub fn decimal_string(n: usize) -> (text: String)
    ensures
        text@ == decimal(n as nat),
    decreases n,
{
    if n < 10 {
        String::from_str(digit_text(n))
    } else {
        let mut text = decimal_string(n / 10);
        text.append(digit_text(n % 10));
        text
    }
}

/// Three pieces of text put together in order.
pub fn framed(before: &str, middle: &str, after: &str) -> (text: String)
    ensures
        text@ == before@ + middle@ + after@,
{
    let mut text = String::from_str(before);
    text.append(middle);
    text.append(after);
    text
}

} // verus!
