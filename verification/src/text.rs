//! Text helpers shared by the rest of the crate.

use vstd::prelude::*;
use vstd::string::StringExecFns;

verus! {

/// Whether a character is whitespace, as `char::is_whitespace` decides it:
/// whether Unicode lists it as White_Space.
pub uninterp spec fn whitespace(c: char) -> bool;

/// Calls `char::is_whitespace`. Taken on trust: the result depends on the
/// character alone; this crate names it `whitespace`.
#[verifier::external_body]
fn is_whitespace(c: char) -> (r: bool)
    ensures
        r == whitespace(c),
{
    c.is_whitespace()
}

/// Number of leading whitespace characters of `s`.
pub open spec fn leading_whitespace(s: Seq<char>) -> nat
    decreases s.len(),
{
    if s.len() > 0 && whitespace(s[0]) {
        1 + leading_whitespace(s.drop_first())
    } else {
        0
    }
}

/// Number of trailing whitespace characters of `s`.
pub open spec fn trailing_whitespace(s: Seq<char>) -> nat
    decreases s.len(),
{
    if s.len() > 0 && whitespace(s.last()) {
        1 + trailing_whitespace(s.drop_last())
    } else {
        0
    }
}

/// `s` without its leading and trailing whitespace.
pub open spec fn trimmed(s: Seq<char>) -> Seq<char> {
    let rest = s.skip(leading_whitespace(s) as int);
    rest.take(rest.len() - trailing_whitespace(rest))
}

/// If everything before position `i` is whitespace and the character at `i`
/// is not, `s` has exactly `i` leading whitespace characters.
proof fn lemma_leading_whitespace(s: Seq<char>, i: int)
    requires
        0 <= i <= s.len(),
        forall|k: int| 0 <= k < i ==> whitespace(#[trigger] s[k]),
        i < s.len() ==> !whitespace(s[i]),
    ensures
        leading_whitespace(s) == i,
    decreases i,
{
    if i > 0 {
        let rest = s.drop_first();
        assert forall|k: int| 0 <= k < i - 1 implies whitespace(#[trigger] rest[k]) by {
            assert(rest[k] == s[k + 1]);
        }
        lemma_leading_whitespace(rest, i - 1);
    }
}

/// If everything from position `j` on is whitespace and the character before
/// `j` is not, `s` has exactly `s.len() - j` trailing whitespace characters.
proof fn lemma_trailing_whitespace(s: Seq<char>, j: int)
    requires
        0 <= j <= s.len(),
        forall|k: int| j <= k < s.len() ==> whitespace(#[trigger] s[k]),
        0 < j ==> !whitespace(s[j - 1]),
    ensures
        trailing_whitespace(s) == s.len() - j,
    decreases s.len() - j,
{
    if j < s.len() {
        let rest = s.drop_last();
        assert forall|k: int| j <= k < rest.len() implies whitespace(#[trigger] rest[k]) by {
            assert(rest[k] == s[k]);
        }
        lemma_trailing_whitespace(rest, j);
    }
}

/// Removes leading and trailing whitespace.
pub fn trim(s: &str) -> (t: &str)
    ensures
        t@ == trimmed(s@),
{
    let len = s.unicode_len();
    // `first` is the position of the first character that is not whitespace,
    // `end` the position after the last one; both stay 0 until one is seen.
    let mut first: usize = 0;
    let mut end: usize = 0;
    let mut i: usize = 0;
    for c in it: s.chars()
        invariant
            it.seq() == s@,
            i == it.index(),
            len == s@.len(),
            first <= end <= i,
            end == 0 ==> forall|k: int| 0 <= k < i ==> whitespace(#[trigger] s@[k]),
            end > 0 ==> first < end && !whitespace(s@[first as int]) && !whitespace(s@[end - 1]),
            end > 0 ==> forall|k: int| 0 <= k < first ==> whitespace(#[trigger] s@[k]),
            forall|k: int| end <= k < i ==> whitespace(#[trigger] s@[k]),
    {
        if !is_whitespace(c) {
            if end == 0 {
                first = i;
            }
            end = i + 1;
        }
        i = i + 1;
    }
    proof {
        if end > 0 {
            lemma_leading_whitespace(s@, first as int);
            let rest = s@.skip(first as int);
            assert forall|k: int| end - first <= k < rest.len() implies whitespace(
                #[trigger] rest[k],
            ) by {
                assert(rest[k] == s@[k + first]);
            }
            assert(rest[end - 1 - first] == s@[end - 1]);
            lemma_trailing_whitespace(rest, end - first);
            assert(trimmed(s@) =~= s@.subrange(first as int, end as int));
        } else {
            lemma_leading_whitespace(s@, len as int);
            lemma_trailing_whitespace(s@.skip(len as int), 0);
            assert(trimmed(s@) =~= s@.subrange(0, 0));
        }
    }
    s.substring_char(first, end)
}

/// Text that neither begins nor ends with whitespace is trimmed to itself.
pub proof fn lemma_trimmed_unchanged(s: Seq<char>)
    requires
        s.len() > 0 ==> !whitespace(s[0]) && !whitespace(s.last()),
    ensures
        trimmed(s) == s,
{
    lemma_leading_whitespace(s, 0);
    assert(s.skip(0) =~= s);
    lemma_trailing_whitespace(s, s.len() as int);
    assert(s.take(s.len() as int) =~= s);
}

/// Calls `==` of two string slices. Taken on trust: two slices are equal
/// exactly when they hold the same characters.
#[verifier::external_body]
pub(crate) fn str_eq(a: &str, b: &str) -> (r: bool)
    ensures
        r == (a@ == b@),
{
    a == b
}

/// The text that formatting a string with `{:?}` produces: the string in
/// double quotes, with the characters escaped that `str`'s `Debug` escapes.
pub uninterp spec fn debug_text(s: Seq<char>) -> Seq<char>;

/// Formats a string slice with `{:?}`. Taken on trust: the result depends on
/// the characters of `s` alone; this crate names it `debug_text`.
#[verifier::external_body]
pub(crate) fn debug_quote(s: &str) -> (r: String)
    ensures
        r@ == debug_text(s@),
{
    format!("{:?}", s)
}

/// The decimal digit for `d`, for `d` below ten.
pub open spec fn digit(d: nat) -> char {
    (('0' as nat) + d) as char
}

/// The decimal representation of `n`, without leading zeros.
pub open spec fn decimal(n: nat) -> Seq<char>
    decreases n,
{
    if n < 10 {
        seq![digit(n)]
    } else {
        decimal(n / 10).push(digit(n % 10))
    }
}

fn digit_str(d: u8) -> (s: &'static str)
    requires
        d < 10,
    ensures
        s@ == seq![digit(d as nat)],
{
    proof {
        reveal_strlit("0");
        reveal_strlit("1");
        reveal_strlit("2");
        reveal_strlit("3");
        reveal_strlit("4");
        reveal_strlit("5");
        reveal_strlit("6");
        reveal_strlit("7");
        reveal_strlit("8");
        reveal_strlit("9");
    }
    let s = if d == 0 {
        "0"
    } else if d == 1 {
        "1"
    } else if d == 2 {
        "2"
    } else if d == 3 {
        "3"
    } else if d == 4 {
        "4"
    } else if d == 5 {
        "5"
    } else if d == 6 {
        "6"
    } else if d == 7 {
        "7"
    } else if d == 8 {
        "8"
    } else {
        "9"
    };
    assert(s@ =~= seq![digit(d as nat)]);
    s
}

/// Writes `n` in decimal.
pub fn decimal_string(n: u8) -> (s: String)
    ensures
        s@ == decimal(n as nat),
{
    let mut s = String::new();
    if n >= 100 {
        s.append(digit_str(n / 100));
    }
    if n >= 10 {
        s.append(digit_str((n / 10) % 10));
    }
    s.append(digit_str(n % 10));
    proof {
        reveal_with_fuel(decimal, 3);
        assert(s@ =~= decimal(n as nat));
    }
    s
}

} // verus!
