//! Whitespace in text: the character class, trimming, and splitting into words.

use vstd::prelude::*;
use vstd::string::*;

verus! {

// The character class.

/// Whether `c` has the Unicode property `White_Space`.
pub open spec fn whitespace(c: char) -> bool {
    let u = c as u32;
    ||| 0x09 <= u <= 0x0D
    ||| u == 0x20
    ||| u == 0x85
    ||| u == 0xA0
    ||| u == 0x1680
    ||| 0x2000 <= u <= 0x200A
    ||| u == 0x2028
    ||| u == 0x2029
    ||| u == 0x202F
    ||| u == 0x205F
    ||| u == 0x3000
}

/// Tells whether `c` is a whitespace character.
pub fn is_whitespace(c: char) -> (b: bool)
    ensures
        b == whitespace(c),
{
    let u: u32 = c as u32;
    (0x09 <= u && u <= 0x0D) || u == 0x20 || u == 0x85 || u == 0xA0 || u == 0x1680 || (0x2000 <= u
        && u <= 0x200A) || u == 0x2028 || u == 0x2029 || u == 0x202F || u == 0x205F || u == 0x3000
}

// Runs of one kind of character at either end of a text.

/// The length of the longest prefix of `s` in which every character is
/// whitespace (`white`), or in which none is (`!white`).
pub open spec fn run_len(s: Seq<char>, white: bool) -> nat
    decreases s.len(),
{
    if s.len() > 0 && whitespace(s[0]) == white {
        1 + run_len(s.drop_first(), white)
    } else {
        0
    }
}

/// The length of the longest suffix of `s` that is all whitespace.
pub open spec fn trailing_whitespace(s: Seq<char>) -> nat
    decreases s.len(),
{
    if s.len() > 0 && whitespace(s.last()) {
        1 + trailing_whitespace(s.drop_last())
    } else {
        0
    }
}

/// `n` is where the leading run of `s` ends: the first `n` characters are of
/// one kind, and the next one, if there is one, is of the other.
pub open spec fn run_ends_at(s: Seq<char>, white: bool, n: int) -> bool {
    &&& 0 <= n <= s.len()
    &&& forall|k: int| 0 <= k < n ==> whitespace(#[trigger] s[k]) == white
    &&& n < s.len() ==> whitespace(s[n]) != white
}

/// Every character of `s` is whitespace.
pub open spec fn all_whitespace(s: Seq<char>) -> bool {
    forall|k: int| 0 <= k < s.len() ==> whitespace(#[trigger] s[k])
}

/// The leading run of `s` ends at `run_len(s, white)`.
pub proof fn lemma_run_len_is_run(s: Seq<char>, white: bool)
    ensures
        run_ends_at(s, white, run_len(s, white) as int),
    decreases s.len(),
{
    if s.len() > 0 && whitespace(s[0]) == white {
        let t = s.drop_first();
        lemma_run_len_is_run(t, white);
        let n = run_len(s, white) as int;
        assert forall|k: int| 0 <= k < n implies whitespace(#[trigger] s[k]) == white by {
            if k > 0 {
                assert(s[k] == t[k - 1]);
            }
        }
    }
}

/// The leading run of `s` ends nowhere but at `run_len(s, white)`.
pub proof fn lemma_run_len_unique(s: Seq<char>, white: bool, n: int)
    requires
        run_ends_at(s, white, n),
    ensures
        run_len(s, white) == n,
    decreases n,
{
    if n > 0 {
        let t = s.drop_first();
        assert(run_ends_at(t, white, n - 1));
        lemma_run_len_unique(t, white, n - 1);
    }
}

/// The trailing whitespace of `s` is whitespace, and the character before
/// it, if there is one, is not.
pub proof fn lemma_trailing_whitespace_is_run(s: Seq<char>)
    ensures
        trailing_whitespace(s) <= s.len(),
        all_whitespace(s.skip(s.len() - trailing_whitespace(s))),
        trailing_whitespace(s) < s.len() ==> !whitespace(s[s.len() - trailing_whitespace(s) - 1]),
    decreases s.len(),
{
    let n = trailing_whitespace(s) as int;
    if s.len() > 0 && whitespace(s.last()) {
        let t = s.drop_last();
        lemma_trailing_whitespace_is_run(t);
        let tail = s.skip(s.len() - n);
        let shorter = t.skip(t.len() - (n - 1));
        assert forall|k: int| 0 <= k < tail.len() implies whitespace(#[trigger] tail[k]) by {
            if k < n - 1 {
                assert(tail[k] == shorter[k]);
            }
        }
    }
}

/// The trailing whitespace of `s` has length `n` where the last `n`
/// characters are whitespace and the one before them, if there is one, is not.
pub proof fn lemma_trailing_whitespace_unique(s: Seq<char>, n: int)
    requires
        0 <= n <= s.len(),
        forall|k: int| s.len() - n <= k < s.len() ==> whitespace(#[trigger] s[k]),
        n < s.len() ==> !whitespace(s[s.len() - n - 1]),
    ensures
        trailing_whitespace(s) == n,
    decreases n,
{
    if n > 0 {
        let t = s.drop_last();
        assert forall|k: int| t.len() - (n - 1) <= k < t.len() implies whitespace(
            #[trigger] t[k],
        ) by {
            assert(t[k] == s[k]);
        }
        lemma_trailing_whitespace_unique(t, n - 1);
    }
}

// Trimming.

/// `s` without its leading and its trailing whitespace.
pub open spec fn trimmed(s: Seq<char>) -> Seq<char> {
    let rest = s.skip(run_len(s, true) as int);
    rest.take(rest.len() - trailing_whitespace(rest))
}

/// The characters of `s`, in order.
pub fn chars_of(s: &str) -> (chars: Vec<char>)
    ensures
        chars@ == s@,
{
    let mut chars: Vec<char> = Vec::new();
    for c in it: s.chars()
        invariant
            chars@ == it.seq().take(it.index() as int),
            it.seq() == s@,
    {
        chars.push(c);
    }
    chars
}

/// `s` without its leading and its trailing whitespace, as a new string.
pub fn trim(s: &str) -> (t: String)
    ensures
        t@ == trimmed(s@),
{
    let chars = chars_of(s);
    let n = chars.len();
    let mut start: usize = 0;
    while start < n && is_whitespace(chars[start])
        invariant
            chars@ == s@,
            n == chars.len(),
            start <= n,
            forall|k: int| 0 <= k < start ==> whitespace(#[trigger] s@[k]),
        decreases n - start,
    {
        start += 1;
    }
    let mut end: usize = n;
    while end > start && is_whitespace(chars[end - 1])
        invariant
            chars@ == s@,
            n == chars.len(),
            start <= end <= n,
            forall|k: int| end <= k < n ==> whitespace(#[trigger] s@[k]),
        decreases end - start,
    {
        end -= 1;
    }
    proof {
        let rest = s@.skip(start as int);
        lemma_run_len_unique(s@, true, start as int);
        assert forall|k: int| rest.len() - (n - end) <= k < rest.len() implies whitespace(
            #[trigger] rest[k],
        ) by {
            assert(rest[k] == s@[start + k]);
        }
        lemma_trailing_whitespace_unique(rest, n - end);
        assert(trimmed(s@) =~= s@.subrange(start as int, end as int));
    }
    s.substring_char(start, end).to_owned()
}

/// What trimming does: `s` is whitespace, then `trimmed(s)`, then whitespace,
/// and `trimmed(s)` neither starts nor ends with whitespace.
pub proof fn law_trim_takes_the_outer_whitespace(s: Seq<char>)
    ensures
        ({
            let lead = run_len(s, true) as int;
            let end = lead + trimmed(s).len();
            &&& end <= s.len()
            &&& s == s.take(lead) + trimmed(s) + s.skip(end)
            &&& all_whitespace(s.take(lead))
            &&& all_whitespace(s.skip(end))
            &&& trimmed(s).len() > 0 ==> !whitespace(trimmed(s).first()) && !whitespace(
                trimmed(s).last(),
            )
        }),
{
    let lead = run_len(s, true) as int;
    let rest = s.skip(lead);
    let trail = trailing_whitespace(rest) as int;
    let t = trimmed(s);
    lemma_run_len_is_run(s, true);
    lemma_trailing_whitespace_is_run(rest);
    assert(s.skip(lead + t.len()) =~= rest.skip(rest.len() - trail));
    assert(s =~= s.take(lead) + t + s.skip(lead + t.len()));
}

/// Trimming a trimmed text changes nothing.
pub proof fn law_trim_twice(s: Seq<char>)
    ensures
        trimmed(trimmed(s)) == trimmed(s),
{
    let t = trimmed(s);
    law_trim_takes_the_outer_whitespace(s);
    lemma_run_len_unique(t, true, 0);
    lemma_trailing_whitespace_unique(t, 0);
    assert(trimmed(t) =~= t);
}

// Words.

/// `s` is a word: it is not empty and holds no whitespace.
pub open spec fn is_word(s: Seq<char>) -> bool {
    &&& s.len() > 0
    &&& forall|k: int| 0 <= k < s.len() ==> !whitespace(#[trigger] s[k])
}

/// The words of `s`: its maximal runs of characters that are not whitespace,
/// from left to right.
pub open spec fn words(s: Seq<char>) -> Seq<Seq<char>>
    decreases s.len(),
{
    if s.len() == 0 {
        Seq::empty()
    } else if whitespace(s[0]) {
        words(s.drop_first())
    } else {
        let n = run_len(s, false) as int;
        proof {
            lemma_run_len_is_run(s, false);
        }
        seq![s.take(n)] + words(s.skip(n))
    }
}

/// The words of `s`, each as a new string.
pub fn split_whitespace(s: &str) -> (parts: Vec<String>)
    ensures
        parts.deep_view() == words(s@),
{
    let chars = chars_of(s);
    let n = chars.len();
    let mut parts: Vec<String> = Vec::new();
    let mut i: usize = 0;
    assert(s@.skip(0) =~= s@);
    while i < n
        invariant
            chars@ == s@,
            n == chars.len(),
            i <= n,
            parts.deep_view() + words(s@.skip(i as int)) == words(s@),
        decreases n - i,
    {
        if is_whitespace(chars[i]) {
            assert(s@.skip(i as int).drop_first() =~= s@.skip(i + 1));
            i += 1;
        } else {
            let start = i;
            while i < n && !is_whitespace(chars[i])
                invariant
                    chars@ == s@,
                    n == chars.len(),
                    start <= i <= n,
                    forall|k: int| start <= k < i ==> !whitespace(#[trigger] s@[k]),
                decreases n - i,
            {
                i += 1;
            }
            let word = s.substring_char(start, i).to_owned();
            proof {
                let rest = s@.skip(start as int);
                assert(run_ends_at(rest, false, i - start));
                lemma_run_len_unique(rest, false, i - start);
                assert(rest.take(i - start) =~= word@);
                assert(rest.skip(i - start) =~= s@.skip(i as int));
            }
            parts.push(word);
        }
    }
    parts
}

/// Whitespace in front of a text adds no word to it.
pub proof fn lemma_words_skip_gap(gap: Seq<char>, rest: Seq<char>)
    requires
        all_whitespace(gap),
    ensures
        words(gap + rest) == words(rest),
    decreases gap.len(),
{
    if gap.len() == 0 {
        assert(gap + rest =~= rest);
    } else {
        assert((gap + rest).drop_first() =~= gap.drop_first() + rest);
        assert(all_whitespace(gap.drop_first()));
        lemma_words_skip_gap(gap.drop_first(), rest);
    }
}

/// A word in front of a text that is empty or starts with whitespace is the
/// first word of the whole.
pub proof fn lemma_words_take_word(word: Seq<char>, rest: Seq<char>)
    requires
        is_word(word),
        rest.len() == 0 || whitespace(rest[0]),
    ensures
        words(word + rest) == seq![word] + words(rest),
{
    let s = word + rest;
    let n = word.len() as int;
    assert(run_ends_at(s, false, n));
    lemma_run_len_unique(s, false, n);
    assert(s.take(n) =~= word);
    assert(s.skip(n) =~= rest);
}

// Words and the whitespace around them.

/// The whitespace around the words of `s`, from left to right: what stands
/// before the first word, between each two words, and after the last.
pub open spec fn gaps_of(s: Seq<char>) -> Seq<Seq<char>>
    decreases s.len(),
{
    let lead = run_len(s, true) as int;
    let rest = s.skip(lead);
    if rest.len() == 0 {
        seq![s]
    } else {
        let n = run_len(rest, false) as int;
        proof {
            lemma_run_len_is_run(s, true);
            lemma_run_len_is_run(rest, false);
        }
        seq![s.take(lead)] + gaps_of(rest.skip(n))
    }
}

/// The text that puts `gaps` around `parts`: the first gap, the first part,
/// the second gap, and so on to the last part and the last gap.
pub open spec fn spaced(parts: Seq<Seq<char>>, gaps: Seq<Seq<char>>) -> Seq<char>
    recommends
        gaps.len() == parts.len() + 1,
    decreases parts.len(),
{
    if parts.len() == 0 {
        gaps[0]
    } else {
        gaps[0] + parts[0] + spaced(parts.drop_first(), gaps.drop_first())
    }
}

/// `gaps` can stand around `parts`: there is one gap more than there are
/// parts, each part is a word, each gap is whitespace, and no gap between two
/// parts is empty. The first gap and the last may be.
pub open spec fn well_spaced(parts: Seq<Seq<char>>, gaps: Seq<Seq<char>>) -> bool {
    &&& gaps.len() == parts.len() + 1
    &&& forall|i: int| 0 <= i < parts.len() ==> is_word(#[trigger] parts[i])
    &&& forall|i: int| 0 <= i < gaps.len() ==> all_whitespace(#[trigger] gaps[i])
    &&& forall|i: int| 0 < i < parts.len() ==> (#[trigger] gaps[i]).len() > 0
}

/// Splitting undoes spacing: the words of a text that puts whitespace
/// around `parts` are `parts`, whatever the whitespace is.
pub proof fn law_split_undoes_spacing(parts: Seq<Seq<char>>, gaps: Seq<Seq<char>>)
    requires
        well_spaced(parts, gaps),
    ensures
        words(spaced(parts, gaps)) == parts,
    decreases parts.len(),
{
    if parts.len() == 0 {
        lemma_words_skip_gap(gaps[0], Seq::empty());
    } else {
        let later_parts = parts.drop_first();
        let later_gaps = gaps.drop_first();
        let rest = spaced(later_parts, later_gaps);
        assert(well_spaced(later_parts, later_gaps));
        law_split_undoes_spacing(later_parts, later_gaps);
        assert(rest.len() == 0 || whitespace(rest[0])) by {
            // `rest` starts with the gap after the first part.
            assert(later_gaps[0] == gaps[1]);
        }
        assert(spaced(parts, gaps) =~= gaps[0] + (parts[0] + rest));
        lemma_words_skip_gap(gaps[0], parts[0] + rest);
        lemma_words_take_word(parts[0], rest);
    }
}

/// Spacing undoes splitting: every text is its words with its gaps around
/// them.
pub proof fn law_spacing_undoes_split(s: Seq<char>)
    ensures
        well_spaced(words(s), gaps_of(s)),
        spaced(words(s), gaps_of(s)) == s,
        gaps_of(s)[0] == s.take(run_len(s, true) as int),
    decreases s.len(),
{
    let lead = run_len(s, true) as int;
    let rest = s.skip(lead);
    lemma_run_len_is_run(s, true);
    assert(s =~= s.take(lead) + rest);
    lemma_words_skip_gap(s.take(lead), rest);
    if rest.len() > 0 {
        let n = run_len(rest, false) as int;
        lemma_run_len_is_run(rest, false);
        let tail = rest.skip(n);
        law_spacing_undoes_split(tail);
        let parts = words(s);
        let around = gaps_of(s);
        assert(parts == seq![rest.take(n)] + words(tail));
        assert(around == seq![s.take(lead)] + gaps_of(tail));
        assert(parts.drop_first() =~= words(tail));
        assert(around.drop_first() =~= gaps_of(tail));
        assert forall|i: int| 0 <= i < parts.len() implies is_word(#[trigger] parts[i]) by {
            if i > 0 {
                assert(parts[i] == words(tail)[i - 1]);
            }
        }
        assert forall|i: int| 0 <= i < around.len() implies all_whitespace(
            #[trigger] around[i],
        ) by {
            if i > 0 {
                assert(around[i] == gaps_of(tail)[i - 1]);
            }
        }
        assert forall|i: int| 0 < i < parts.len() implies (#[trigger] around[i]).len() > 0 by {
            assert(around[i] == gaps_of(tail)[i - 1]);
        }
    }
}

} // verus!
