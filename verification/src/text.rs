//! Text helpers: the characters of a string, comparison, trimming, and
//! whitespace-delimited word counting.

use vstd::prelude::*;
use vstd::string::{StrSliceExecFns, StringExecFns};

verus! {

/// The characters of `s`, one element each, in order.
pub fn chars_of(s: &str) -> (v: Vec<char>)
    ensures
        v@ == s@,
{
    let mut v: Vec<char> = Vec::new();
    for c in it: s.chars()
        invariant
            v@.len() == it.index(),
            forall|i: int| 0 <= i < v@.len() ==> v@[i] == it.seq()[i],
            it.seq() == s@,
    {
        v.push(c);
    }
    v
}

/// The texts of a run of strings.
pub open spec fn line_texts(lines: Seq<String>) -> Seq<Seq<char>> {
    lines.map_values(|line: String| line@)
}

/// Whether two runs of characters are the same.
pub fn same_chars(a: &Vec<char>, b: &Vec<char>) -> (same: bool)
    ensures
        same == (a@ == b@),
{
    if a.len() != b.len() {
        return false;
    }
    let mut i: usize = 0;
    while i < a.len()
        invariant
            a@.len() == b@.len(),
            i <= a@.len(),
            forall|j: int| 0 <= j < i ==> a@[j] == b@[j],
        decreases a@.len() - i,
    {
        if a[i] != b[i] {
            return false;
        }
        i += 1;
    }
    assert(a@ =~= b@);
    true
}

/// Whether two texts are the same, character by character.
pub fn same_text(a: &str, b: &str) -> (same: bool)
    ensures
        same == (a@ == b@),
{
    same_chars(&chars_of(a), &chars_of(b))
}

/// The characters that separate words: those with the Unicode property
/// `White_Space`.
pub open spec fn is_whitespace_char(c: char) -> bool {
    let u = c as u32;
    ||| 0x09 <= u <= 0x0D
    ||| u == 0x20
    ||| u == 0x85
    ||| u == 0xA0
    ||| u == 0x1680
    ||| 0x2000 <= u <= 0x200A
    ||| u == 0x2028
    ||| u == 0x2029
    ||| u == 0x202F
    ||| u == 0x205F
    ||| u == 0x3000
}

/// Whether `c` separates words.
pub fn is_whitespace(c: char) -> (ws: bool)
    ensures
        ws == is_whitespace_char(c),
{
    let u: u32 = c as u32;
    (0x09 <= u && u <= 0x0D) || u == 0x20 || u == 0x85 || u == 0xA0 || u == 0x1680 || (0x2000 <= u
        && u <= 0x200A) || u == 0x2028 || u == 0x2029 || u == 0x202F || u == 0x205F || u == 0x3000
}

/// A word starts at position `i` of `s`: a character that is no whitespace,
/// at the very start or right after whitespace.
pub open spec fn starts_word(s: Seq<char>, i: int) -> bool {
    &&& 0 <= i < s.len()
    &&& !is_whitespace_char(s[i])
    &&& (i == 0 || is_whitespace_char(s[i - 1]))
}

/// How many words start among the first `n` positions of `s`.
pub open spec fn word_starts_before(s: Seq<char>, n: nat) -> nat
    decreases n,
{
    if n == 0 {
        0
    } else {
        word_starts_before(s, (n - 1) as nat) + if starts_word(s, n - 1) {
            1nat
        } else {
            0nat
        }
    }
}

/// The number of whitespace-delimited words in `s`: the number of maximal
/// runs of characters that are no whitespace.
pub open spec fn word_count(s: Seq<char>) -> nat {
    word_starts_before(s, s.len())
}

/// There are never more word starts than positions looked at.
pub proof fn lemma_word_starts_bounded(s: Seq<char>, n: nat)
    ensures
        word_starts_before(s, n) <= n,
    decreases n,
{
    if n > 0 {
        lemma_word_starts_bounded(s, (n - 1) as nat);
    }
}

/// Counts the whitespace-delimited words of `s`.
pub fn count_words(s: &str) -> (count: u64)
    ensures
        count == word_count(s@),
{
    let len = s.unicode_len();
    let mut count: u64 = 0;
    let mut after_space = true;
    for c in it: s.chars()
        invariant
            it.seq() == s@,
            len == s@.len(),
            count == word_starts_before(s@, it.index() as nat),
            after_space == (it.index() == 0 || is_whitespace_char(s@[it.index() - 1])),
    {
        proof {
            lemma_word_starts_bounded(s@, it.index() as nat);
        }
        let space = is_whitespace(c);
        if !space && after_space {
            count += 1;
        }
        after_space = space;
    }
    count
}

/// `s` without the whitespace at its two ends.
pub open spec fn trimmed(s: Seq<char>) -> Seq<char>
    decreases s.len(),
{
    if s.len() == 0 {
        s
    } else if is_whitespace_char(s.first()) {
        trimmed(s.drop_first())
    } else if is_whitespace_char(s.last()) {
        trimmed(s.drop_last())
    } else {
        s
    }
}

/// Trimming leaves the stretch between the first and the last character
/// that is no whitespace.
pub proof fn lemma_trimmed_is_middle(s: Seq<char>, from: int, to: int)
    requires
        0 <= from <= to <= s.len(),
        forall|i: int| 0 <= i < from ==> is_whitespace_char(s[i]),
        forall|i: int| to <= i < s.len() ==> is_whitespace_char(s[i]),
        from < to ==> !is_whitespace_char(s[from]) && !is_whitespace_char(s[to - 1]),
    ensures
        trimmed(s) == s.subrange(from, to),
    decreases s.len(),
{
    if s.len() == 0 {
        assert(s.subrange(from, to) =~= s);
    } else if is_whitespace_char(s.first()) {
        let rest = s.drop_first();
        if from == 0 {
            assert(to == 0);
            lemma_trimmed_is_middle(rest, 0, 0);
            assert(rest.subrange(0, 0) =~= s.subrange(0, 0));
        } else {
            lemma_trimmed_is_middle(rest, from - 1, to - 1);
            assert(rest.subrange(from - 1, to - 1) =~= s.subrange(from, to));
        }
    } else if is_whitespace_char(s.last()) {
        let rest = s.drop_last();
        assert(from == 0);
        assert(to < s.len());
        lemma_trimmed_is_middle(rest, from, to);
        assert(rest.subrange(from, to) =~= s.subrange(from, to));
    } else {
        assert(from == 0);
        assert(to == s.len());
        assert(s.subrange(from, to) =~= s);
    }
}

/// `s` without the whitespace at its two ends.
pub fn trim(s: &str) -> (text: String)
    ensures
        text@ == trimmed(s@),
{
    let chars = chars_of(s);
    let len = chars.len();
    let mut from: usize = 0;
    while from < len && is_whitespace(chars[from])
        invariant
            len == chars@.len(),
            from <= len,
            forall|i: int| 0 <= i < from ==> is_whitespace_char(chars@[i]),
        decreases len - from,
    {
        from += 1;
    }
    let mut to: usize = len;
    while to > from && is_whitespace(chars[to - 1])
        invariant
            len == chars@.len(),
            from <= to <= len,
            forall|i: int| to <= i < len ==> is_whitespace_char(chars@[i]),
        decreases to,
    {
        to -= 1;
    }
    proof {
        lemma_trimmed_is_middle(s@, from as int, to as int);
    }
    String::from_str(s.substring_char(from, to))
}

} // verus!
