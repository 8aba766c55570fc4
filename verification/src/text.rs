//! Searching and cutting text by character position.
//!
//! Everything here is stated over `Seq<char>`, the view of `str` and `String`.

use vstd::prelude::*;
use vstd::string::*;

verus! {

/// The texts of `strings`, one for one.
pub open spec fn texts(strings: Seq<String>) -> Seq<Seq<char>> {
    Seq::new(strings.len(), |i: int| strings[i]@)
}

/// `pat` stands in `s` at character position `i`.
pub open spec fn occurs_at(s: Seq<char>, pat: Seq<char>, i: int) -> bool {
    &&& 0 <= i
    &&& i + pat.len() <= s.len()
    &&& s.subrange(i, i + pat.len()) == pat
}

/// `pat` stands somewhere in `s`.
pub open spec fn has_occurrence(s: Seq<char>, pat: Seq<char>) -> bool {
    exists|i: int| occurs_at(s, pat, i)
}

/// `pat` stands at `i` and nowhere to the right of `i`.
pub open spec fn is_last_occurrence(s: Seq<char>, pat: Seq<char>, i: int) -> bool {
    &&& occurs_at(s, pat, i)
    &&& forall|j: int| i < j ==> !occurs_at(s, pat, j)
}

/// The rightmost position at which `pat` stands in `s`, if there is one.
pub open spec fn last_occurrence(s: Seq<char>, pat: Seq<char>) -> Option<int> {
    if has_occurrence(s, pat) {
        Some(choose|i: int| is_last_occurrence(s, pat, i))
    } else {
        None
    }
}

/// A rightmost occurrence is the only one: `last_occurrence` names it.
pub proof fn lemma_last_occurrence_unique(s: Seq<char>, pat: Seq<char>, i: int)
    requires
        is_last_occurrence(s, pat, i),
    ensures
        last_occurrence(s, pat) == Some(i),
{
}

/// Where nothing stands to the right of `bound` and something stands somewhere,
/// some occurrence is the last.
proof fn lemma_last_occurrence_below(s: Seq<char>, pat: Seq<char>, bound: int)
    requires
        has_occurrence(s, pat),
        forall|j: int| bound < j ==> !occurs_at(s, pat, j),
    ensures
        exists|i: int| is_last_occurrence(s, pat, i),
    decreases bound + 1,
{
    if occurs_at(s, pat, bound) {
        assert(is_last_occurrence(s, pat, bound));
    } else {
        let somewhere = choose|w: int| occurs_at(s, pat, w);
        lemma_last_occurrence_below(s, pat, bound - 1);
    }
}

/// What `last_occurrence` names is an occurrence with none to its right.
pub proof fn lemma_last_occurrence_is_last(s: Seq<char>, pat: Seq<char>)
    ensures
        match last_occurrence(s, pat) {
            Some(i) => is_last_occurrence(s, pat, i),
            None => forall|j: int| !occurs_at(s, pat, j),
        },
{
    if has_occurrence(s, pat) {
        lemma_last_occurrence_below(s, pat, s.len() as int);
    }
}

/// Without any occurrence there is no last one.
pub proof fn lemma_last_occurrence_none(s: Seq<char>, pat: Seq<char>)
    requires
        forall|j: int| !occurs_at(s, pat, j),
    ensures
        last_occurrence(s, pat) is None,
{
}

/// The characters of `s`, in order.
pub fn chars_of(s: &str) -> (v: Vec<char>)
    ensures
        v@ == s@,
{
    let mut v: Vec<char> = Vec::new();
    for c in it: s.chars()
        invariant
            v@ == it.seq().take(it.index()),
            it.seq() == s@,
    {
        v.push(c);
    }
    v
}

/// Whether `pat` stands in `s` at position `i`.
pub fn matches_at(s: &Vec<char>, pat: &Vec<char>, i: usize) -> (found: bool)
    ensures
        found == occurs_at(s@, pat@, i as int),
{
    if pat.len() > s.len() || i > s.len() - pat.len() {
        return false;
    }
    let mut k: usize = 0;
    while k < pat.len()
        invariant
            k <= pat.len(),
            i + pat.len() <= s.len(),
            forall|t: int| 0 <= t < k ==> s@[i + t] == pat@[t],
        decreases pat.len() - k,
    {
        if s[i + k] != pat[k] {
            return false;
        }
        k += 1;
    }
    assert(s@.subrange(i as int, i + pat@.len()) =~= pat@);
    true
}

/// The rightmost position at which `pat` stands in `s`.
pub fn find_last(s: &Vec<char>, pat: &Vec<char>) -> (found: Option<usize>)
    ensures
        match found {
            Some(i) => is_last_occurrence(s@, pat@, i as int),
            None => !has_occurrence(s@, pat@),
        },
        last_occurrence(s@, pat@) == match found {
            Some(i) => Some(i as int),
            None => None,
        },
{
    if pat.len() > s.len() {
        proof {
            lemma_last_occurrence_none(s@, pat@);
        }
        return None;
    }
    let mut i: usize = s.len() - pat.len();
    loop
        invariant
            pat.len() <= s.len(),
            i <= s.len() - pat.len(),
            forall|j: int| i < j ==> !occurs_at(s@, pat@, j),
        decreases i,
    {
        if matches_at(s, pat, i) {
            proof {
                lemma_last_occurrence_unique(s@, pat@, i as int);
            }
            return Some(i);
        }
        if i == 0 {
            proof {
                lemma_last_occurrence_none(s@, pat@);
            }
            return None;
        }
        i -= 1;
    }
}

/// Whether `pat` stands somewhere in `s`.
pub fn contains_text(s: &Vec<char>, pat: &Vec<char>) -> (found: bool)
    ensures
        found == has_occurrence(s@, pat@),
{
    match find_last(s, pat) {
        Some(_) => true,
        None => false,
    }
}

/// `c`, or the small letter for it where `c` is an ASCII capital letter.
pub open spec fn ascii_lower(c: char) -> char {
    if 'A' <= c && c <= 'Z' {
        ((c as u32) + 32) as char
    } else {
        c
    }
}

/// `s` with the small letter in the place of every ASCII capital letter.
pub open spec fn ascii_lowered(s: Seq<char>) -> Seq<char> {
    Seq::new(s.len(), |i: int| ascii_lower(s[i]))
}

/// `pat`, written in small letters, stands in `s` at `i` in whatever case its
/// letters are written there.
pub open spec fn occurs_in_any_case(s: Seq<char>, pat: Seq<char>, i: int) -> bool {
    occurs_at(ascii_lowered(s), pat, i)
}

/// `c`, or the small letter for it where `c` is an ASCII capital letter.
pub fn lower_char(c: char) -> (small: char)
    ensures
        small == ascii_lower(c),
{
    if c >= 'A' && c <= 'Z' {
        ((c as u8) + 32) as char
    } else {
        c
    }
}

/// `s` with the small letter in the place of every ASCII capital letter.
pub fn lower_chars(s: &Vec<char>) -> (small: Vec<char>)
    ensures
        small@ == ascii_lowered(s@),
{
    let mut small: Vec<char> = Vec::new();
    let mut i: usize = 0;
    while i < s.len()
        invariant
            i <= s.len(),
            small.len() == i,
            forall|j: int| 0 <= j < i ==> small@[j] == ascii_lower(s@[j]),
        decreases s.len() - i,
    {
        small.push(lower_char(s[i]));
        i += 1;
    }
    assert(small@ =~= ascii_lowered(s@));
    small
}

/// How many copies of `c` stand at the front of `s`.
pub open spec fn leading_run(s: Seq<char>, c: char) -> nat
    decreases s.len(),
{
    if s.len() > 0 && s[0] == c {
        1 + leading_run(s.drop_first(), c)
    } else {
        0
    }
}

/// `s` without the copies of `c` at its front.
pub open spec fn without_leading(s: Seq<char>, c: char) -> Seq<char> {
    s.subrange(leading_run(s, c) as int, s.len() as int)
}

/// A position up to which every character is `c`, followed by another character
/// or by the end, is the length of the run at the front.
pub proof fn lemma_leading_run_is(s: Seq<char>, c: char, n: int)
    requires
        0 <= n <= s.len(),
        forall|i: int| 0 <= i < n ==> s[i] == c,
        n < s.len() ==> s[n] != c,
    ensures
        leading_run(s, c) == n,
    decreases s.len(),
{
    if n > 0 {
        lemma_leading_run_is(s.drop_first(), c, n - 1);
    }
}

/// The text of `s` behind the copies of `c` at its front.
pub fn strip_leading(s: &str, c: char) -> (rest: String)
    ensures
        rest@ == without_leading(s@, c),
{
    let chars = chars_of(s);
    let mut n: usize = 0;
    while n < chars.len() && chars[n] == c
        invariant
            n <= chars.len(),
            forall|i: int| 0 <= i < n ==> chars@[i] == c,
        decreases chars.len() - n,
    {
        n += 1;
    }
    proof {
        lemma_leading_run_is(s@, c, n as int);
    }
    String::from_str(s.substring_char(n, chars.len()))
}

/// How many copies of `c` stand at the end of `s`.
pub open spec fn trailing_run(s: Seq<char>, c: char) -> nat
    decreases s.len(),
{
    if s.len() > 0 && s.last() == c {
        1 + trailing_run(s.drop_last(), c)
    } else {
        0
    }
}

/// `s` without the copies of `c` at its end.
pub open spec fn without_trailing(s: Seq<char>, c: char) -> Seq<char> {
    s.subrange(0, s.len() - trailing_run(s, c))
}

/// A length from which on every character is `c`, with another character or
/// the start in front, is what is left without the run at the end.
pub proof fn lemma_trailing_run_is(s: Seq<char>, c: char, kept: int)
    requires
        0 <= kept <= s.len(),
        forall|i: int| kept <= i < s.len() ==> s[i] == c,
        kept > 0 ==> s[kept - 1] != c,
    ensures
        trailing_run(s, c) == s.len() - kept,
    decreases s.len(),
{
    if kept < s.len() {
        lemma_trailing_run_is(s.drop_last(), c, kept);
    }
}

/// What is left of `s` without the run of `c` at its end does not end in `c`.
pub proof fn lemma_without_trailing_ends_otherwise(s: Seq<char>, c: char)
    ensures
        trailing_run(s, c) <= s.len(),
        without_trailing(s, c).len() > 0 ==> without_trailing(s, c).last() != c,
        without_trailing(s, c).len() == 0 ==> forall|i: int| 0 <= i < s.len() ==> s[i] == c,
        trailing_run(s, c) == 0 ==> without_trailing(s, c) == s,
    decreases s.len(),
{
    if s.len() > 0 && s.last() == c {
        let rest = s.drop_last();
        lemma_without_trailing_ends_otherwise(rest, c);
        assert(without_trailing(s, c) =~= without_trailing(rest, c));
        if without_trailing(s, c).len() == 0 {
            assert forall|i: int| 0 <= i < s.len() implies s[i] == c by {
                if i < rest.len() {
                    assert(rest[i] == s[i]);
                }
            }
        }
    } else {
        assert(without_trailing(s, c) =~= s);
    }
}

/// The text of `s` in front of the copies of `c` at its end.
pub fn strip_trailing(s: &str, c: char) -> (rest: String)
    ensures
        rest@ == without_trailing(s@, c),
{
    let chars = chars_of(s);
    let mut kept: usize = chars.len();
    while kept > 0 && chars[kept - 1] == c
        invariant
            kept <= chars.len(),
            forall|i: int| kept <= i < chars.len() ==> chars@[i] == c,
        decreases kept,
    {
        kept -= 1;
    }
    proof {
        lemma_trailing_run_is(s@, c, kept as int);
    }
    String::from_str(s.substring_char(0, kept))
}

/// `a`, then `b`.
pub fn concat2(a: &str, b: &str) -> (r: String)
    ensures
        r@ == a@ + b@,
{
    let mut r = String::from_str(a);
    r.append(b);
    r
}

} // verus!
