//! Text helpers: white space, the leading-newline rule, joining words.

use vstd::prelude::*;
use vstd::string::*;

verus! {

/// Whether `c` has the Unicode property White_Space.
pub open spec fn is_white_space(c: char) -> bool {
    let n = c as u32;
    ||| 0x09 <= n <= 0x0D
    ||| n == 0x20
    ||| n == 0x85
    ||| n == 0xA0
    ||| n == 0x1680
    ||| 0x2000 <= n <= 0x200A
    ||| n == 0x2028
    ||| n == 0x2029
    ||| n == 0x202F
    ||| n == 0x205F
    ||| n == 0x3000
}

/// Tests one character for white space.
pub fn white_space(c: char) -> (r: bool)
    ensures
        r == is_white_space(c),
{
    let n: u32 = c as u32;
    (0x09 <= n && n <= 0x0D) || n == 0x20 || n == 0x85 || n == 0xA0 || n == 0x1680 || (0x2000 <= n
        && n <= 0x200A) || n == 0x2028 || n == 0x2029 || n == 0x202F || n == 0x205F || n == 0x3000
}

/// How many characters at the start of `s` are white space.
pub open spec fn leading_space(s: Seq<char>) -> nat
    decreases s.len(),
{
    if s.len() > 0 && is_white_space(s[0]) {
        1 + leading_space(s.drop_first())
    } else {
        0
    }
}

/// `s` without the white space it starts with.
pub open spec fn trim_start(s: Seq<char>) -> Seq<char> {
    s.skip(leading_space(s) as int)
}

/// `leading_space(s)` is the one `k` such that the first `k` characters are
/// white space and the next one, if there is one, is not.
pub proof fn lemma_leading_space(s: Seq<char>, k: nat)
    requires
        k <= s.len(),
        forall|i: int| 0 <= i < k ==> is_white_space(s[i]),
        k == s.len() || !is_white_space(s[k as int]),
    ensures
        leading_space(s) == k,
    decreases s.len(),
{
    if k > 0 {
        let rest = s.drop_first();
        assert forall|i: int| 0 <= i < k - 1 implies is_white_space(rest[i]) by {
            assert(rest[i] == s[i + 1]);
        }
        lemma_leading_space(rest, (k - 1) as nat);
    }
}

/// Removes the white space that `s` starts with.
pub fn strip_leading_space(s: &str) -> (r: String)
    ensures
        r@ == trim_start(s@),
{
    let n: usize = s.unicode_len();
    let mut k: usize = 0;
    while k < n && white_space(s.get_char(k))
        invariant
            k <= n,
            n == s@.len(),
            forall|i: int| 0 <= i < k ==> is_white_space(s@[i]),
        decreases n - k,
    {
        k += 1;
    }
    proof {
        lemma_leading_space(s@, k as nat);
    }
    String::from_str(s.substring_char(k, n))
}

/// Whether `s` starts with a line feed.
pub open spec fn begins_with_newline(s: Seq<char>) -> bool {
    s.len() > 0 && s[0] == '\n'
}

/// Tests whether `s` starts with a line feed.
pub fn starts_with_newline(s: &str) -> (r: bool)
    ensures
        r == begins_with_newline(s@),
{
    !s.is_empty() && s.get_char(0) == '\n'
}

/// Whether the leading-newline rule meets a content fragment: nothing is kept
/// yet, no earlier fragment of the message was stripped, and the fragment
/// starts with a line feed. So the rule is met at most once in a message.
pub open spec fn meets_newline_rule(kept: Seq<char>, stripped: bool, fragment: Seq<char>) -> bool {
    kept.len() == 0 && !stripped && begins_with_newline(fragment)
}

/// The part of a content fragment that is shown and kept, given the content
/// kept so far and whether an earlier fragment of the message was stripped:
/// a fragment that meets the leading-newline rule loses all its leading white
/// space; any other fragment is taken whole.
pub open spec fn visible_fragment(kept: Seq<char>, stripped: bool, fragment: Seq<char>) -> Seq<
    char,
> {
    if meets_newline_rule(kept, stripped, fragment) {
        trim_start(fragment)
    } else {
        fragment
    }
}

/// Tests whether the leading-newline rule meets a fragment that arrives when
/// `kept` is the content so far.
pub fn newline_rule_applies(kept: &str, stripped: bool, fragment: &str) -> (r: bool)
    ensures
        r == meets_newline_rule(kept@, stripped, fragment@),
{
    kept.is_empty() && !stripped && starts_with_newline(fragment)
}

/// Computes `visible_fragment` for a fragment that arrives when `kept` is the
/// content so far.
pub fn visible(kept: &str, stripped: bool, fragment: String) -> (r: String)
    ensures
        r@ == visible_fragment(kept@, stripped, fragment@),
{
    if newline_rule_applies(kept, stripped, fragment.as_str()) {
        strip_leading_space(fragment.as_str())
    } else {
        fragment
    }
}

/// Whether two texts hold the same characters.
pub fn same_text(a: &String, b: &str) -> (r: bool)
    ensures
        r == (a@ == b@),
{
    let other = String::from_str(b);
    *a == other
}

/// The characters of each word.
pub open spec fn texts(words: Seq<String>) -> Seq<Seq<char>> {
    Seq::new(words.len(), |i: int| words[i]@)
}

/// The words in order, with `sep` between neighbours.
pub open spec fn joined(words: Seq<Seq<char>>, sep: Seq<char>) -> Seq<char>
    decreases words.len(),
{
    if words.len() == 0 {
        Seq::empty()
    } else if words.len() == 1 {
        words[0]
    } else {
        joined(words.drop_last(), sep) + sep + words.last()
    }
}

/// Joins the words with one space between neighbours.
pub fn join_words(words: &Vec<String>) -> (r: String)
    ensures
        r@ == joined(texts(words@), " "@),
{
    let mut out = String::new();
    let mut i: usize = 0;
    while i < words.len()
        invariant
            i <= words.len(),
            out@ == joined(texts(words@).take(i as int), " "@),
        decreases words.len() - i,
    {
        let ghost before = texts(words@).take(i as int);
        let ghost after = texts(words@).take(i + 1);
        assert(after.drop_last() == before);
        assert(after.last() == words@[i as int]@);
        if i > 0 {
            out.append(" ");
        }
        out.append(words[i].as_str());
        i += 1;
    }
    assert(texts(words@).take(i as int) == texts(words@));
    out
}

} // verus!
