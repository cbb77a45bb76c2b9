//! Characters and character sequences: what the reading of user input needs.
//!
//! The specifications speak of `Seq<char>`; the executable functions work on
//! a `Vec<char>` and on ranges of positions in it, so that no text is copied
//! while it is taken apart.

use vstd::prelude::*;

verus! {

/// Whether `c` is white space: a character with the Unicode property
/// `White_Space`.
pub open spec fn is_blank(c: char) -> bool {
    let n = c as u32;
    ||| 0x09 <= n <= 0x0D
    ||| n == 0x20
    ||| n == 0x85
    ||| n == 0xA0
    ||| n == 0x1680
    ||| 0x2000 <= n <= 0x200A
    ||| n == 0x2028
    ||| n == 0x2029
    ||| n == 0x202F
    ||| n == 0x205F
    ||| n == 0x3000
}

/// `c` in lower case where it is an ASCII capital letter, else `c` itself.
pub open spec fn lower(c: char) -> char {
    if 'A' <= c <= 'Z' {
        ((c as u8) + 32) as char
    } else {
        c
    }
}

/// `s` with every ASCII capital letter in lower case.
pub open spec fn lowered(s: Seq<char>) -> Seq<char> {
    s.map_values(|c: char| lower(c))
}

/// `s` without the white space it begins with.
pub open spec fn trim_start(s: Seq<char>) -> Seq<char>
    decreases s.len(),
{
    if s.len() > 0 && is_blank(s.first()) {
        trim_start(s.drop_first())
    } else {
        s
    }
}

/// `s` without the white space it ends with.
pub open spec fn trim_end(s: Seq<char>) -> Seq<char>
    decreases s.len(),
{
    if s.len() > 0 && is_blank(s.last()) {
        trim_end(s.drop_last())
    } else {
        s
    }
}

/// `s` without the white space at either end.
pub open spec fn trimmed(s: Seq<char>) -> Seq<char> {
    trim_end(trim_start(s))
}

/// Whether `s` is a word of lower-case ASCII letters and hyphens.
pub open spec fn is_plain(s: Seq<char>) -> bool {
    &&& s.len() > 0
    &&& forall|j: int| 0 <= j < s.len() ==> ('a' <= #[trigger] s[j] <= 'z' || s[j] == '-')
}

/// A word of lower-case letters and hyphens has no white space to trim and
/// no capital letter to lower.
pub proof fn lemma_plain_is_as_written(s: Seq<char>)
    requires
        is_plain(s),
    ensures
        trimmed(s) == s,
        lowered(s) == s,
{
}

/// The pieces into which the occurrences of `sep` cut `s`, in order. A text
/// with n separators has n + 1 pieces, some of which may be empty.
pub open spec fn pieces(s: Seq<char>, sep: char) -> Seq<Seq<char>>
    decreases s.len(),
{
    if s.len() == 0 {
        seq![Seq::<char>::empty()]
    } else if s.first() == sep {
        seq![Seq::<char>::empty()] + pieces(s.drop_first(), sep)
    } else {
        let rest = pieces(s.drop_first(), sep);
        seq![seq![s.first()] + rest.first()] + rest.drop_first()
    }
}

/// A text always has a first piece.
pub proof fn lemma_pieces_nonempty(s: Seq<char>, sep: char)
    ensures
        pieces(s, sep).len() >= 1,
    decreases s.len(),
{
    if s.len() > 0 {
        lemma_pieces_nonempty(s.drop_first(), sep);
    }
}

/// Where the first `run` characters of `s` hold no separator, they belong
/// to the first piece of `s`, and the other pieces are those of the rest.
pub proof fn lemma_pieces_after_run(s: Seq<char>, sep: char, run: int)
    requires
        0 <= run <= s.len(),
        forall|j: int| 0 <= j < run ==> s[j] != sep,
    ensures
        pieces(s, sep) == seq![s.take(run) + pieces(s.skip(run), sep).first()] + pieces(
            s.skip(run),
            sep,
        ).drop_first(),
    decreases run,
{
    let rest = pieces(s.skip(run), sep);
    lemma_pieces_nonempty(s.skip(run), sep);
    if run == 0 {
        assert(s.skip(0) == s);
    } else {
        let tail = s.drop_first();
        lemma_pieces_after_run(tail, sep, run - 1);
        assert(tail.skip(run - 1) == s.skip(run));
        assert(seq![s.first()] + (tail.take(run - 1) + rest.first()) == s.take(run)
            + rest.first());
    }
}

/// The pieces put together again, with `sep` between them.
pub open spec fn joined(parts: Seq<Seq<char>>, sep: char) -> Seq<char>
    decreases parts.len(),
{
    if parts.len() == 0 {
        Seq::empty()
    } else if parts.len() == 1 {
        parts.first()
    } else {
        parts.first() + seq![sep] + joined(parts.drop_first(), sep)
    }
}

/// Cutting loses nothing and leaves no separator behind: the pieces of a
/// text, put together again, are the text, and no piece holds a separator.
pub proof fn lemma_pieces_cut_at_every_separator(s: Seq<char>, sep: char)
    ensures
        joined(pieces(s, sep), sep) == s,
        forall|i: int, j: int|
            0 <= i < pieces(s, sep).len() && 0 <= j < pieces(s, sep)[i].len() ==> pieces(
                s,
                sep,
            )[i][j] != sep,
    decreases s.len(),
{
    let parts = pieces(s, sep);
    if s.len() > 0 {
        let tail = s.drop_first();
        let rest = pieces(tail, sep);
        lemma_pieces_cut_at_every_separator(tail, sep);
        lemma_pieces_nonempty(tail, sep);
        if s.first() == sep {
            assert(parts.drop_first() == rest);
        } else {
            assert(parts.drop_first() == rest.drop_first());
            if rest.len() > 1 {
                assert(seq![s.first()] + tail == s);
            }
        }
    }
}

/// Trimming takes white space from the two ends and nothing else: what is
/// left is a stretch of the text that neither begins nor ends with white
/// space, and all that lies outside of it is white space.
pub proof fn lemma_trimmed_is_the_core(s: Seq<char>)
    ensures
        exists|from: int, to: int|
            {
                &&& 0 <= from <= to <= s.len()
                &&& #[trigger] s.subrange(from, to) == trimmed(s)
                &&& forall|j: int| 0 <= j < from || to <= j < s.len() ==> is_blank(s[j])
                &&& from < to ==> !is_blank(s[from]) && !is_blank(s[to - 1])
            },
{
    let from = lemma_trim_start_skips(s);
    let back = lemma_trim_end_drops(s.skip(from));
    let to = s.len() - back;
    let kept = s.skip(from);
    assert(kept.take(kept.len() - back) == s.subrange(from, to));
    assert forall|j: int| 0 <= j < from || to <= j < s.len() implies is_blank(s[j]) by {
        if to <= j {
            assert(kept[j - from] == s[j]);
        }
    }
}

/// How many characters of white space `s` begins with: `trim_start` skips
/// them and no more.
proof fn lemma_trim_start_skips(s: Seq<char>) -> (count: int)
    ensures
        0 <= count <= s.len(),
        trim_start(s) == s.skip(count),
        forall|j: int| 0 <= j < count ==> is_blank(s[j]),
        count < s.len() ==> !is_blank(s[count]),
    decreases s.len(),
{
    if s.len() > 0 && is_blank(s.first()) {
        let tail = s.drop_first();
        let inner = lemma_trim_start_skips(tail);
        assert forall|j: int| 0 <= j < inner + 1 implies is_blank(s[j]) by {
            if j > 0 {
                assert(tail[j - 1] == s[j]);
            }
        }
        inner + 1
    } else {
        0
    }
}

/// How many characters of white space `s` ends with: `trim_end` drops them
/// and no more.
proof fn lemma_trim_end_drops(s: Seq<char>) -> (count: int)
    ensures
        0 <= count <= s.len(),
        trim_end(s) == s.take(s.len() - count),
        forall|j: int| s.len() - count <= j < s.len() ==> is_blank(s[j]),
        count < s.len() ==> !is_blank(s[s.len() - count - 1]),
    decreases s.len(),
{
    if s.len() > 0 && is_blank(s.last()) {
        let front = s.drop_last();
        let inner = lemma_trim_end_drops(front);
        assert forall|j: int| s.len() - (inner + 1) <= j < s.len() implies is_blank(s[j]) by {
            if j < s.len() - 1 {
                assert(front[j] == s[j]);
            }
        }
        inner + 1
    } else {
        0
    }
}

/// Whether `c` is white space.
pub fn is_whitespace(c: char) -> (blank: bool)
    ensures
        blank == is_blank(c),
{
    let n = c as u32;
    (0x09 <= n && n <= 0x0D) || n == 0x20 || n == 0x85 || n == 0xA0 || n == 0x1680 || (0x2000 <= n
        && n <= 0x200A) || n == 0x2028 || n == 0x2029 || n == 0x202F || n == 0x205F || n == 0x3000
}

/// `c` in lower case where it is an ASCII capital letter, else `c` itself.
pub fn to_lower(c: char) -> (l: char)
    ensures
        l == lower(c),
{
    if 'A' <= c && c <= 'Z' {
        ((c as u8) + 32) as char
    } else {
        c
    }
}

/// The characters of `s`, one by one.
pub fn chars_of(s: &str) -> (chars: Vec<char>)
    ensures
        chars@ == s@,
{
    let mut chars: Vec<char> = Vec::new();
    for c in it: s.chars()
        invariant
            chars@ == it.seq().take(it.index() as int),
    {
        chars.push(c);
    }
    chars
}

/// The range of positions that is left of `start .. end` when the white
/// space at either end is taken away.
pub(crate) fn trim_range(chars: &Vec<char>, start: usize, end: usize) -> (kept: (usize, usize))
    requires
        start <= end <= chars.len(),
    ensures
        start <= kept.0 <= kept.1 <= end,
        chars@.subrange(kept.0 as int, kept.1 as int) == trimmed(
            chars@.subrange(start as int, end as int),
        ),
{
    let mut a = start;
    while a < end && is_whitespace(chars[a])
        invariant
            start <= a <= end <= chars.len(),
            trim_start(chars@.subrange(start as int, end as int)) == trim_start(
                chars@.subrange(a as int, end as int),
            ),
        decreases end - a,
    {
        assert(chars@.subrange(a as int, end as int).drop_first() == chars@.subrange(
            a + 1,
            end as int,
        ));
        a += 1;
    }
    let mut b = end;
    while b > a && is_whitespace(chars[b - 1])
        invariant
            a <= b <= end <= chars.len(),
            trim_end(chars@.subrange(a as int, end as int)) == trim_end(
                chars@.subrange(a as int, b as int),
            ),
        decreases b - a,
    {
        assert(chars@.subrange(a as int, b as int).drop_last() == chars@.subrange(
            a as int,
            b - 1,
        ));
        b -= 1;
    }
    (a, b)
}

/// Whether the characters at `start .. end`, taken in lower case, spell
/// `word`.
pub(crate) fn spells(chars: &Vec<char>, start: usize, end: usize, word: &Vec<char>) -> (same: bool)
    requires
        start <= end <= chars.len(),
    ensures
        same == (lowered(chars@.subrange(start as int, end as int)) == word@),
{
    if end - start != word.len() {
        return false;
    }
    let ghost text = lowered(chars@.subrange(start as int, end as int));
    let mut i: usize = 0;
    while i < word.len()
        invariant
            start <= end <= chars.len(),
            end - start == word.len(),
            i <= word.len(),
            text == lowered(chars@.subrange(start as int, end as int)),
            forall|j: int| 0 <= j < i ==> text[j] == word@[j],
        decreases word.len() - i,
    {
        if to_lower(chars[start + i]) != word[i] {
            return false;
        }
        i += 1;
    }
    assert(text =~= word@);
    true
}

} // verus!
