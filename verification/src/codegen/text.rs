//! Names and numbers as text.
use vstd::prelude::*;

verus! {

/// The decimal digit of value `d`.
pub open spec fn digit(d: int) -> char {
    (48 + d) as char
}

/// `n` in decimal notation.
pub open spec fn decimal(n: nat) -> Seq<char>
    decreases n,
{
    if n < 10 {
        seq![digit(n as int)]
    } else {
        decimal(n / 10).push(digit((n % 10) as int))
    }
}

/// What `str::to_uppercase` makes of a text.
pub uninterp spec fn uppercased(text: Seq<char>) -> Seq<char>;

/// What `str::to_lowercase` makes of a text.
pub uninterp spec fn lowercased(text: Seq<char>) -> Seq<char>;

/// `str::to_uppercase`: the upper-case mapping of Unicode, which depends on the
/// text alone.
#[verifier::external_body]
fn std_to_uppercase(text: &str) -> (upper: String)
    ensures
        upper@ == uppercased(text@),
{
    text.to_uppercase()
}

/// `str::to_lowercase`: the lower-case mapping of Unicode, which depends on the
/// text alone.
#[verifier::external_body]
fn std_to_lowercase(text: &str) -> (lower: String)
    ensures
        lower@ == lowercased(text@),
{
    text.to_lowercase()
}

/// `text` in upper case.
pub fn to_uppercase(text: &String) -> (upper: String)
    ensures
        upper@ == uppercased(text@),
{
    std_to_uppercase(text.as_str())
}

/// `text` in lower case.
pub fn to_lowercase(text: &String) -> (lower: String)
    ensures
        lower@ == lowercased(text@),
{
    std_to_lowercase(text.as_str())
}

/// The text of one decimal digit.
fn digit_text(d: u64) -> (text: &'static str)
    requires
        d < 10,
    ensures
        text@ == seq![digit(d as int)],
{
    proof {
        reveal_strlit("0");
        reveal_strlit("1");
        reveal_strlit("2");
        reveal_strlit("3");
        reveal_strlit("4");
        reveal_strlit("5");
        reveal_strlit("6");
        reveal_strlit("7");
        reveal_strlit("8");
        reveal_strlit("9");
    }
    let text: &'static str = match d {
        0 => "0",
        1 => "1",
        2 => "2",
        3 => "3",
        4 => "4",
        5 => "5",
        6 => "6",
        7 => "7",
        8 => "8",
        _ => "9",
    };
    assert(text@ =~= seq![digit(d as int)]);
    text
}

/// `n` in decimal notation.
pub fn decimal_text(n: u64) -> (text: String)
    ensures
        text@ == decimal(n as nat),
    decreases n,
{
    if n < 10 {
        digit_text(n).to_owned()
    } else {
        let mut text = decimal_text(n / 10);
        text.append(digit_text(n % 10));
        assert(text@ =~= decimal((n / 10) as nat).push(digit((n % 10) as int)));
        text
    }
}

/// `first` followed by `second`.
pub fn joined(first: &str, second: &str) -> (text: String)
    ensures
        text@ == first@ + second@,
{
    let mut text = first.to_owned();
    text.append(second);
    text
}

/// Whether `text` is `other`.
pub fn same(text: &String, other: &str) -> (equal: bool)
    ensures
        equal == (text@ == other@),
{
    *text == other.to_owned()
}

} // verus!
