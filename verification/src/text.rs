//! Text that the store derives from its inputs: the blank test on a search
//! query, the pattern that a query is matched with, and the decimal text of
//! a row key.

use vstd::prelude::*;

verus! {

/// Whether `c` has the Unicode property `White_Space`.
pub open spec fn is_white_space(c: char) -> bool {
    let u = c as u32;
    ||| 0x09 <= u <= 0x0D
    ||| u == 0x20
    ||| u == 0x85
    ||| u == 0xA0
    ||| u == 0x1680
    ||| 0x2000 <= u <= 0x200A
    ||| u == 0x2028
    ||| u == 0x2029
    ||| u == 0x202F
    ||| u == 0x205F
    ||| u == 0x3000
}

/// A text is blank when it is empty or holds white space only.
pub open spec fn is_blank(s: Seq<char>) -> bool {
    forall|i: int| 0 <= i < s.len() ==> is_white_space(#[trigger] s[i])
}

/// Tells whether `c` has the Unicode property `White_Space`.
fn is_space(c: char) -> (b: bool)
    ensures
        b == is_white_space(c),
{
    let u = c as u32;
    (0x09 <= u && u <= 0x0D) || u == 0x20 || u == 0x85 || u == 0xA0 || u == 0x1680 || (0x2000 <= u
        && u <= 0x200A) || u == 0x2028 || u == 0x2029 || u == 0x202F || u == 0x205F || u == 0x3000
}

/// Whether a search query holds nothing to search for: whether nothing is
/// left of it when the white space at its ends is taken away.
pub fn query_is_blank(query: &str) -> (b: bool)
    ensures
        b == is_blank(query@),
{
    let mut blank = true;
    for c in it: query.chars()
        invariant
            it.seq() == query@,
            blank == forall|j: int| 0 <= j < it.index() ==> is_white_space(#[trigger] query@[j]),
    {
        if !is_space(c) {
            blank = false;
        }
    }
    blank
}

/// The pattern that matches every text that holds `query` somewhere: the
/// query between two `%` wildcards.
pub open spec fn like_pattern_of(query: Seq<char>) -> Seq<char> {
    seq!['%'] + query + seq!['%']
}

/// Builds the containment pattern for `query`.
pub fn like_pattern(query: &str) -> (p: String)
    ensures
        p@ == like_pattern_of(query@),
{
    proof {
        reveal_strlit("%");
    }
    let p = String::from_str("%").concat(query).concat("%");
    assert(p@ =~= like_pattern_of(query@));
    p
}

/// The character of a decimal digit.
pub open spec fn digit_char(d: int) -> char {
    if d == 0 {
        '0'
    } else if d == 1 {
        '1'
    } else if d == 2 {
        '2'
    } else if d == 3 {
        '3'
    } else if d == 4 {
        '4'
    } else if d == 5 {
        '5'
    } else if d == 6 {
        '6'
    } else if d == 7 {
        '7'
    } else if d == 8 {
        '8'
    } else {
        '9'
    }
}

/// The decimal digits of a natural number, most significant first, without
/// leading zeros.
pub open spec fn natural_text(n: nat) -> Seq<char>
    decreases n,
{
    if n < 10 {
        seq![digit_char(n as int)]
    } else {
        natural_text(n / 10).push(digit_char((n % 10) as int))
    }
}

/// The decimal text of an integer: a minus sign for a negative number, then
/// the digits of its magnitude.
pub open spec fn decimal_text(n: int) -> Seq<char> {
    if n < 0 {
        seq!['-'] + natural_text((-n) as nat)
    } else {
        natural_text(n as nat)
    }
}

/// The one-character text of a decimal digit.
fn digit_text(d: u64) -> (t: &'static str)
    requires
        d < 10,
    ensures
        t@ == seq![digit_char(d as int)],
{
    proof {
        reveal_strlit("0");
        reveal_strlit("1");
        reveal_strlit("2");
        reveal_strlit("3");
        reveal_strlit("4");
        reveal_strlit("5");
        reveal_strlit("6");
        reveal_strlit("7");
        reveal_strlit("8");
        reveal_strlit("9");
    }
    let t = if d == 0 {
        "0"
    } else if d == 1 {
        "1"
    } else if d == 2 {
        "2"
    } else if d == 3 {
        "3"
    } else if d == 4 {
        "4"
    } else if d == 5 {
        "5"
    } else if d == 6 {
        "6"
    } else if d == 7 {
        "7"
    } else if d == 8 {
        "8"
    } else {
        "9"
    };
    assert(t@ =~= seq![digit_char(d as int)]);
    t
}

/// The decimal text of a natural number.
fn magnitude_text(n: u64) -> (t: String)
    ensures
        t@ == natural_text(n as nat),
{
    let mut rest: u64 = n / 10;
    let mut text = String::from_str(digit_text(n % 10));
    let ghost mut done: nat = n as nat;
    while rest > 0
        invariant
            rest as nat == done / 10,
            natural_text(n as nat) == if done < 10 {
                text@
            } else {
                natural_text(done / 10) + text@
            },
        decreases rest,
    {
        let lead = String::from_str(digit_text(rest % 10));
        proof {
            let r = rest as nat;
            if r < 10 {
                assert(natural_text(r) =~= lead@);
            } else {
                assert(natural_text(r) =~= natural_text(r / 10) + lead@);
                assert(natural_text(r) + text@ =~= natural_text(r / 10) + (lead@ + text@));
            }
            done = r;
        }
        text = lead.concat(text.as_str());
        rest = rest / 10;
    }
    text
}

/// The decimal text of a row key, as it is bound to a statement that takes
/// the key as text.
pub fn key_text(key: i64) -> (t: String)
    ensures
        t@ == decimal_text(key as int),
{
    if key < 0 {
        let magnitude: u64 = (-(key + 1)) as u64 + 1;
        proof {
            reveal_strlit("-");
        }
        let digits = magnitude_text(magnitude);
        let t = String::from_str("-").concat(digits.as_str());
        assert(t@ =~= decimal_text(key as int));
        t
    } else {
        magnitude_text(key as u64)
    }
}

} // verus!
