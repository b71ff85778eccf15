//! Small helpers for building text.

use vstd::prelude::*;
use vstd::string::{StrSliceExecFns, StringExecFns};

verus! {

/// The character of a decimal digit.
pub open spec fn digit_char(d: nat) -> char {
    if d == 0 {
        '0'
    } else if d == 1 {
        '1'
    } else if d == 2 {
        '2'
    } else if d == 3 {
        '3'
    } else if d == 4 {
        '4'
    } else if d == 5 {
        '5'
    } else if d == 6 {
        '6'
    } else if d == 7 {
        '7'
    } else if d == 8 {
        '8'
    } else {
        '9'
    }
}

/// The decimal digits of a number, most significant first, without leading
/// zeros; the number zero is written "0".
pub open spec fn decimal(n: nat) -> Seq<char>
    decreases n,
{
    if n < 10 {
        seq![digit_char(n)]
    } else {
        decimal(n / 10).push(digit_char(n % 10))
    }
}

/// The text of one decimal digit.
fn digit_str(d: u64) -> (s: &'static str)
    requires
        d < 10,
    ensures
        s@ == seq![digit_char(d as nat)],
{
    proof {
        reveal_strlit("0");
        reveal_strlit("1");
        reveal_strlit("2");
        reveal_strlit("3");
        reveal_strlit("4");
        reveal_strlit("5");
        reveal_strlit("6");
        reveal_strlit("7");
        reveal_strlit("8");
        reveal_strlit("9");
    }
    let s = if d == 0 {
        "0"
    } else if d == 1 {
        "1"
    } else if d == 2 {
        "2"
    } else if d == 3 {
        "3"
    } else if d == 4 {
        "4"
    } else if d == 5 {
        "5"
    } else if d == 6 {
        "6"
    } else if d == 7 {
        "7"
    } else if d == 8 {
        "8"
    } else {
        "9"
    };
    assert(s@ =~= seq![digit_char(d as nat)]);
    s
}

/// Writes a number in decimal.
pub fn u64_to_string(n: u64) -> (text: String)
    ensures
        text@ == decimal(n as nat),
    decreases n,
{
    if n < 10 {
        String::from_str(digit_str(n))
    } else {
        let mut text = u64_to_string(n / 10);
        text.append(digit_str(n % 10));
        assert(text@ =~= decimal((n / 10) as nat).push(digit_char((n % 10) as nat)));
        text
    }
}

/// Whether `needle` occurs in `text` as a contiguous run of characters.
pub open spec fn contains_text(text: Seq<char>, needle: Seq<char>) -> bool {
    exists|i: int|
        0 <= i && i + needle.len() <= text.len() && #[trigger] text.subrange(
            i,
            i + needle.len(),
        ) == needle
}

/// A text contains whatever stands between two of its parts.
pub proof fn lemma_contains_middle(before: Seq<char>, needle: Seq<char>, after: Seq<char>)
    ensures
        contains_text(before + needle + after, needle),
{
    let text = before + needle + after;
    let i = before.len() as int;
    assert(text.subrange(i, i + needle.len()) =~= needle);
}

/// Whether two texts are the same.
pub fn str_eq(a: &str, b: &str) -> (same: bool)
    ensures
        same == (a@ == b@),
{
    let x = String::from_str(a);
    let y = String::from_str(b);
    x == y
}

/// The texts `parts`, each but the first with `sep` before it.
pub open spec fn joined(parts: Seq<Seq<char>>, sep: Seq<char>) -> Seq<char>
    decreases parts.len(),
{
    if parts.len() == 0 {
        Seq::empty()
    } else if parts.len() == 1 {
        parts[0]
    } else {
        joined(parts.drop_last(), sep) + sep + parts.last()
    }
}

/// The texts of a slice of strings.
pub open spec fn texts_of(parts: Seq<String>) -> Seq<Seq<char>> {
    parts.map_values(|s: String| s@)
}

/// Joins texts with a separator between them.
pub fn join(parts: &[String], sep: &str) -> (text: String)
    ensures
        text@ == joined(texts_of(parts@), sep@),
{
    let mut text = String::new();
    let mut i: usize = 0;
    while i < parts.len()
        invariant
            i <= parts@.len(),
            text@ == joined(texts_of(parts@).subrange(0, i as int), sep@),
        decreases parts@.len() - i,
    {
        let ghost done = texts_of(parts@).subrange(0, i as int);
        let ghost next = texts_of(parts@).subrange(0, i + 1);
        proof {
            assert(next.drop_last() =~= done);
            assert(next.last() == parts@[i as int]@);
        }
        if i > 0 {
            text.append(sep);
        }
        text.append(parts[i].as_str());
        proof {
            if i == 0 {
                assert(text@ =~= parts@[0]@);
            }
        }
        i = i + 1;
    }
    assert(texts_of(parts@).subrange(0, parts@.len() as int) =~= texts_of(parts@));
    text
}

/// `text` without the copies of `pattern` that it ends with. An empty
/// pattern takes nothing off.
pub open spec fn without_suffixes(text: Seq<char>, pattern: Seq<char>) -> Seq<char>
    decreases text.len(),
{
    if pattern.len() > 0 && text.len() >= pattern.len() && text.subrange(
        text.len() - pattern.len(),
        text.len() as int,
    ) == pattern {
        without_suffixes(text.subrange(0, text.len() - pattern.len()), pattern)
    } else {
        text
    }
}

/// `text` without the copies of `pattern` that it begins with. An empty
/// pattern takes nothing off.
pub open spec fn without_prefixes(text: Seq<char>, pattern: Seq<char>) -> Seq<char>
    decreases text.len(),
{
    if pattern.len() > 0 && text.len() >= pattern.len() && text.subrange(0, pattern.len() as int)
        == pattern {
        without_prefixes(text.subrange(pattern.len() as int, text.len() as int), pattern)
    } else {
        text
    }
}

/// Whether the characters of `text` from `from` on begin with `pattern`.
fn matches_at(text: &str, from: usize, pattern: &str) -> (found: bool)
    requires
        from <= text@.len(),
    ensures
        found == (from + pattern@.len() <= text@.len() && text@.subrange(
            from as int,
            from + pattern@.len(),
        ) == pattern@),
{
    let len = text.unicode_len();
    let plen = pattern.unicode_len();
    if plen > len - from {
        return false;
    }
    let mut i: usize = 0;
    while i < plen
        invariant
            i <= plen,
            plen == pattern@.len(),
            len == text@.len(),
            from + plen <= len,
            forall|k: int| 0 <= k < i ==> text@[from + k] == pattern@[k],
        decreases plen - i,
    {
        if text.get_char(from + i) != pattern.get_char(i) {
            assert(text@.subrange(from as int, from + plen)[i as int] != pattern@[i as int]);
            return false;
        }
        i = i + 1;
    }
    assert(text@.subrange(from as int, from + plen) =~= pattern@);
    true
}

/// Takes off `text` the copies of `pattern` that it ends with.
pub fn trim_end_matches(text: &str, pattern: &str) -> (rest: String)
    ensures
        rest@ == without_suffixes(text@, pattern@),
{
    let plen = pattern.unicode_len();
    let mut end = text.unicode_len();
    if plen > 0 {
        assert(text@.subrange(0, end as int) =~= text@);
        while end >= plen && matches_at(text, end - plen, pattern)
            invariant
                plen == pattern@.len(),
                plen > 0,
                end <= text@.len(),
                without_suffixes(text@, pattern@) == without_suffixes(
                    text@.subrange(0, end as int),
                    pattern@,
                ),
            decreases end,
        {
            proof {
                let kept = text@.subrange(0, end as int);
                assert(kept.subrange(kept.len() - plen, kept.len() as int) =~= text@.subrange(
                    end - plen,
                    end as int,
                ));
                assert(kept.subrange(0, kept.len() - plen) =~= text@.subrange(0, end - plen));
            }
            end = end - plen;
        }
        proof {
            let kept = text@.subrange(0, end as int);
            if end >= plen {
                assert(kept.subrange(kept.len() - plen, kept.len() as int) =~= text@.subrange(
                    end - plen,
                    end as int,
                ));
            }
        }
    } else {
        assert(text@.subrange(0, end as int) =~= text@);
    }
    String::from_str(text.substring_char(0, end))
}

/// Takes off `text` the copies of `pattern` that it begins with.
pub fn trim_start_matches(text: &str, pattern: &str) -> (rest: String)
    ensures
        rest@ == without_prefixes(text@, pattern@),
{
    let plen = pattern.unicode_len();
    let len = text.unicode_len();
    let mut start: usize = 0;
    if plen > 0 {
        assert(text@.subrange(0, len as int) =~= text@);
        while matches_at(text, start, pattern)
            invariant
                plen == pattern@.len(),
                plen > 0,
                len == text@.len(),
                start <= len,
                without_prefixes(text@, pattern@) == without_prefixes(
                    text@.subrange(start as int, len as int),
                    pattern@,
                ),
            decreases len - start,
        {
            proof {
                let kept = text@.subrange(start as int, len as int);
                assert(kept.subrange(0, plen as int) =~= text@.subrange(
                    start as int,
                    start + plen,
                ));
                assert(kept.subrange(plen as int, kept.len() as int) =~= text@.subrange(
                    start + plen,
                    len as int,
                ));
            }
            start = start + plen;
        }
        proof {
            let kept = text@.subrange(start as int, len as int);
            if start + plen <= len {
                assert(kept.subrange(0, plen as int) =~= text@.subrange(
                    start as int,
                    start + plen,
                ));
            }
        }
    } else {
        assert(text@.subrange(0, len as int) =~= text@);
    }
    String::from_str(text.substring_char(start, len))
}

/// Whether `c` is white space, as `char::is_whitespace` of the standard
/// library tells it: whether it has the Unicode property `White_Space`.
pub uninterp spec fn white_space(c: char) -> bool;

/// Asks `char::is_whitespace` whether a character is white space. The
/// contract names the answer and claims no more.
#[verifier::external_body]
fn is_white_space(c: char) -> (yes: bool)
    ensures
        yes == white_space(c),
{
    c.is_whitespace()
}

/// `text` without the white space that it ends with.
pub open spec fn without_trailing_space(text: Seq<char>) -> Seq<char>
    decreases text.len(),
{
    if text.len() > 0 && white_space(text.last()) {
        without_trailing_space(text.drop_last())
    } else {
        text
    }
}

/// Takes the white space off the end of a text.
pub fn trim_end(text: &str) -> (rest: String)
    ensures
        rest@ == without_trailing_space(text@),
{
    let mut end = text.unicode_len();
    assert(text@.subrange(0, end as int) =~= text@);
    while end > 0 && is_white_space(text.get_char(end - 1))
        invariant
            end <= text@.len(),
            without_trailing_space(text@) == without_trailing_space(text@.subrange(0, end as int)),
        decreases end,
    {
        proof {
            let kept = text@.subrange(0, end as int);
            assert(kept.last() == text@[end - 1]);
            assert(kept.drop_last() =~= text@.subrange(0, end - 1));
        }
        end = end - 1;
    }
    proof {
        let kept = text@.subrange(0, end as int);
        if end > 0 {
            assert(kept.last() == text@[end - 1]);
        }
    }
    String::from_str(text.substring_char(0, end))
}

} // verus!
