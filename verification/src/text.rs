//! Text helpers shared by the rest of the library: comparing strings,
//! trimming, counting words and rendering numbers.
//!
//! Everything is stated over `Seq<char>`, the view of `str` and `String`.

use vstd::prelude::*;
use vstd::string::*;
use vstd::utf8::*;

verus! {

/// Whether `c` has the Unicode `White_Space` property, as `char::is_whitespace`
/// reports it.
pub uninterp spec fn unicode_white_space(c: char) -> bool;

/// The lowercase form of `s`, as `str::to_lowercase` computes it.
pub uninterp spec fn unicode_lowercase(s: Seq<char>) -> Seq<char>;

/// Calls `char::is_whitespace`. Trusted: the result is the `White_Space`
/// property of `c`, which this library names `unicode_white_space`.
#[verifier::external_body]
pub(crate) fn is_whitespace(c: char) -> (b: bool)
    ensures
        b == unicode_white_space(c),
{
    c.is_whitespace()
}

/// Calls `str::to_lowercase`. Trusted: the result depends on `s` alone; this
/// library names it `unicode_lowercase`.
#[verifier::external_body]
pub(crate) fn to_lowercase(s: &str) -> (r: String)
    ensures
        r@ == unicode_lowercase(s@),
{
    s.to_lowercase()
}

/// Two strings with the same UTF-8 bytes hold the same characters.
proof fn lemma_same_bytes_same_chars(a: Seq<char>, b: Seq<char>)
    requires
        encode_utf8(a) == encode_utf8(b),
    ensures
        a == b,
{
    encode_utf8_decode_utf8(a);
    encode_utf8_decode_utf8(b);
}

/// Whether `a` and `b` hold the same characters.
pub fn str_equal(a: &str, b: &str) -> (same: bool)
    ensures
        same == (a@ == b@),
{
    let ab = a.as_bytes();
    let bb = b.as_bytes();
    if ab.len() != bb.len() {
        return false;
    }
    let n: usize = ab.len();
    let mut i: usize = 0;
    while i < n
        invariant
            i <= n,
            n == ab@.len(),
            n == bb@.len(),
            ab@ == a.spec_bytes(),
            bb@ == b.spec_bytes(),
            forall|k: int| 0 <= k < i ==> ab@[k] == bb@[k],
        decreases n - i,
    {
        if ab[i] != bb[i] {
            return false;
        }
        i = i + 1;
    }
    proof {
        assert(ab@ =~= bb@);
        lemma_same_bytes_same_chars(a@, b@);
    }
    true
}

/// The index of the first character of `s` at or after `from` that is not
/// whitespace, or `s.len()` if there is none.
pub open spec fn skip_white_space(s: Seq<char>, from: int) -> int
    decreases s.len() - from,
{
    if 0 <= from < s.len() && unicode_white_space(s[from]) {
        skip_white_space(s, from + 1)
    } else {
        from
    }
}

/// The end of `s[..until]` once its trailing whitespace is dropped, never
/// going below `floor`.
pub open spec fn skip_white_space_back(s: Seq<char>, until: int, floor: int) -> int
    decreases until,
{
    if floor < until <= s.len() && 0 < until && unicode_white_space(s[until - 1]) {
        skip_white_space_back(s, until - 1, floor)
    } else {
        until
    }
}

/// `s` without its leading and trailing whitespace.
pub open spec fn trim_spec(s: Seq<char>) -> Seq<char> {
    let start = skip_white_space(s, 0);
    let end = skip_white_space_back(s, s.len() as int, start);
    s.subrange(start, end)
}

/// `skip_white_space` stays inside the string, passes over whitespace only
/// and stops at a character that is none.
proof fn lemma_skip_white_space(s: Seq<char>, from: int)
    requires
        0 <= from <= s.len(),
    ensures
        from <= skip_white_space(s, from) <= s.len(),
        forall|i: int| from <= i < skip_white_space(s, from) ==> unicode_white_space(s[i]),
        skip_white_space(s, from) < s.len() ==> !unicode_white_space(
            s[skip_white_space(s, from)],
        ),
    decreases s.len() - from,
{
    if from < s.len() && unicode_white_space(s[from]) {
        lemma_skip_white_space(s, from + 1);
    }
}

/// `skip_white_space_back` stays between its floor and its start, passes
/// over whitespace only and stops behind a character that is none.
proof fn lemma_skip_white_space_back(s: Seq<char>, until: int, floor: int)
    requires
        0 <= floor <= until <= s.len(),
    ensures
        floor <= skip_white_space_back(s, until, floor) <= until,
        forall|i: int|
            skip_white_space_back(s, until, floor) <= i < until ==> unicode_white_space(s[i]),
        floor < skip_white_space_back(s, until, floor) ==> !unicode_white_space(
            s[skip_white_space_back(s, until, floor) - 1],
        ),
    decreases until,
{
    if floor < until && unicode_white_space(s[until - 1]) {
        lemma_skip_white_space_back(s, until - 1, floor);
    }
}

/// Trimming drops whitespace and nothing else: the trimmed text is a stretch
/// of the text with only whitespace before and after it, and it neither
/// starts nor ends with whitespace.
pub proof fn lemma_trim_is_trimmed(s: Seq<char>)
    ensures
        exists|start: int, end: int|
            0 <= start <= end <= s.len() && trim_spec(s) == s.subrange(start, end) && (forall|
                i: int,
            |
                0 <= i < start ==> unicode_white_space(s[i])) && (forall|i: int|
                end <= i < s.len() ==> unicode_white_space(s[i])),
        trim_spec(s).len() > 0 ==> !unicode_white_space(trim_spec(s).first())
            && !unicode_white_space(trim_spec(s).last()),
{
    let start = skip_white_space(s, 0);
    lemma_skip_white_space(s, 0);
    let end = skip_white_space_back(s, s.len() as int, start);
    lemma_skip_white_space_back(s, s.len() as int, start);
    assert(0 <= start <= end <= s.len() && trim_spec(s) == s.subrange(start, end) && (forall|
        i: int,
    |
        0 <= i < start ==> unicode_white_space(s[i])) && (forall|i: int|
        end <= i < s.len() ==> unicode_white_space(s[i])));
}

/// The characters of `s`, in order.
pub fn chars_of(s: &str) -> (chars: Vec<char>)
    ensures
        chars@ == s@,
{
    let mut chars: Vec<char> = Vec::new();
    for c in it: s.chars()
        invariant
            it.seq() == s@,
            chars@ == it.seq().take(it.index() as int),
    {
        chars.push(c);
        assert(chars@ =~= it.seq().take(it.index() + 1));
    }
    assert(chars@ =~= s@);
    chars
}

/// Returns `s` without its leading and trailing whitespace.
pub fn trim(s: &str) -> (t: String)
    ensures
        t@ == trim_spec(s@),
{
    let chars = chars_of(s);
    let n: usize = chars.len();
    let mut start: usize = 0;
    while start < n && is_whitespace(chars[start])
        invariant
            start <= n,
            n == s@.len(),
            chars@ == s@,
            skip_white_space(s@, 0) == skip_white_space(s@, start as int),
        decreases n - start,
    {
        start = start + 1;
    }
    let mut end: usize = n;
    while start < end && is_whitespace(chars[end - 1])
        invariant
            start <= end <= n,
            n == s@.len(),
            chars@ == s@,
            skip_white_space_back(s@, n as int, start as int) == skip_white_space_back(
                s@,
                end as int,
                start as int,
            ),
        decreases end,
    {
        end = end - 1;
    }
    String::from_str(s.substring_char(start, end))
}

/// Whether a word starts at index `i` of `s`: a character that is not
/// whitespace, at the start of `s` or after whitespace.
pub open spec fn starts_word(s: Seq<char>, i: int) -> bool {
    &&& 0 <= i < s.len()
    &&& !unicode_white_space(s[i])
    &&& (i == 0 || unicode_white_space(s[i - 1]))
}

/// The number of words that start in `s[..n]`.
pub open spec fn words_before(s: Seq<char>, n: int) -> nat
    decreases n,
{
    if n <= 0 {
        0
    } else {
        words_before(s, n - 1) + if starts_word(s, n - 1) {
            1nat
        } else {
            0nat
        }
    }
}

/// The number of words in `s`: maximal runs of characters that are not
/// whitespace.
pub open spec fn word_count_spec(s: Seq<char>) -> nat {
    words_before(s, s.len() as int)
}

/// No word starts in a stretch of whitespace.
proof fn lemma_no_words_in_white_space(s: Seq<char>, from: int, to: int)
    requires
        0 <= from <= to <= s.len(),
        forall|i: int| from <= i < to ==> unicode_white_space(s[i]),
    ensures
        words_before(s, to) == words_before(s, from),
    decreases to - from,
{
    if from < to {
        lemma_no_words_in_white_space(s, from, to - 1);
    }
}

/// Words start in a stretch of a text where they start in the text, if the
/// stretch begins at the start of the text or after whitespace.
proof fn lemma_words_in_stretch(s: Seq<char>, start: int, end: int, n: int)
    requires
        0 <= start <= end <= s.len(),
        0 <= n <= end - start,
        start > 0 ==> unicode_white_space(s[start - 1]),
    ensures
        words_before(s, start + n) == words_before(s, start) + words_before(
            s.subrange(start, end),
            n,
        ),
    decreases n,
{
    if n > 0 {
        lemma_words_in_stretch(s, start, end, n - 1);
        let t = s.subrange(start, end);
        assert(t[n - 1] == s[start + n - 1]);
        if n > 1 {
            assert(t[n - 2] == s[start + n - 2]);
        }
        assert(starts_word(t, n - 1) == starts_word(s, start + n - 1));
    }
}

/// Trimming a text leaves the number of its words as it is.
pub proof fn lemma_trim_keeps_words(s: Seq<char>)
    ensures
        word_count_spec(trim_spec(s)) == word_count_spec(s),
{
    let start = skip_white_space(s, 0);
    lemma_skip_white_space(s, 0);
    let end = skip_white_space_back(s, s.len() as int, start);
    lemma_skip_white_space_back(s, s.len() as int, start);
    lemma_no_words_in_white_space(s, 0, start);
    lemma_words_in_stretch(s, start, end, end - start);
    lemma_no_words_in_white_space(s, end, s.len() as int);
}

/// Counts the words of `s`, separated by any amount of whitespace.
pub fn word_count(s: &str) -> (count: usize)
    ensures
        count == word_count_spec(s@),
{
    let n: usize = s.unicode_len();
    let mut count: usize = 0;
    let mut in_word: bool = false;
    for c in it: s.chars()
        invariant
            it.seq() == s@,
            n == s@.len(),
            count == words_before(s@, it.index() as int),
            count <= it.index(),
            in_word == (it.index() > 0 && !unicode_white_space(s@[it.index() - 1])),
    {
        let white = is_whitespace(c);
        if !white && !in_word {
            count = count + 1;
        }
        in_word = !white;
    }
    count
}

/// The character of the decimal digit `d`.
pub open spec fn digit_char(d: int) -> char {
    if d == 0 {
        '0'
    } else if d == 1 {
        '1'
    } else if d == 2 {
        '2'
    } else if d == 3 {
        '3'
    } else if d == 4 {
        '4'
    } else if d == 5 {
        '5'
    } else if d == 6 {
        '6'
    } else if d == 7 {
        '7'
    } else if d == 8 {
        '8'
    } else {
        '9'
    }
}

/// The decimal notation of `n`, without leading zeros.
pub open spec fn decimal(n: nat) -> Seq<char>
    decreases n,
{
    if n < 10 {
        seq![digit_char(n as int)]
    } else {
        decimal(n / 10).push(digit_char((n % 10) as int))
    }
}

fn digit_str(d: u64) -> (s: &'static str)
    requires
        d < 10,
    ensures
        s@ == seq![digit_char(d as int)],
{
    proof {
        reveal_strlit("0");
        reveal_strlit("1");
        reveal_strlit("2");
        reveal_strlit("3");
        reveal_strlit("4");
        reveal_strlit("5");
        reveal_strlit("6");
        reveal_strlit("7");
        reveal_strlit("8");
        reveal_strlit("9");
    }
    let s = if d == 0 {
        "0"
    } else if d == 1 {
        "1"
    } else if d == 2 {
        "2"
    } else if d == 3 {
        "3"
    } else if d == 4 {
        "4"
    } else if d == 5 {
        "5"
    } else if d == 6 {
        "6"
    } else if d == 7 {
        "7"
    } else if d == 8 {
        "8"
    } else {
        "9"
    };
    assert(s@ =~= seq![digit_char(d as int)]);
    s
}

/// Appends the decimal notation of `n` to `out`.
pub fn push_decimal(out: &mut String, n: u64)
    ensures
        final(out)@ == old(out)@ + decimal(n as nat),
    decreases n,
{
    if n >= 10 {
        push_decimal(out, n / 10);
    }
    out.append(digit_str(n % 10));
    proof {
        if n >= 10 {
            assert(final(out)@ =~= old(out)@ + decimal(n as nat));
        } else {
            assert(final(out)@ =~= old(out)@ + decimal(n as nat));
        }
    }
}

/// Renders `n` in decimal notation.
pub fn to_decimal(n: u64) -> (s: String)
    ensures
        s@ == decimal(n as nat),
{
    let mut s = String::new();
    push_decimal(&mut s, n);
    assert(s@ =~= decimal(n as nat));
    s
}

} // verus!
