//! Spaces, words and columns in a text.

use vstd::prelude::*;
use vstd::string::*;

use crate::text;

verus! {

// ---------------------------------------------------------------------------
// Words
// ---------------------------------------------------------------------------
/// Is `c` white space, as Unicode has it?
pub open spec fn is_space(c: char) -> bool {
    let n = c as u32;
    ||| 0x09 <= n <= 0x0d
    ||| n == 0x20
    ||| n == 0x85
    ||| n == 0xa0
    ||| n == 0x1680
    ||| 0x2000 <= n <= 0x200a
    ||| n == 0x2028
    ||| n == 0x2029
    ||| n == 0x202f
    ||| n == 0x205f
    ||| n == 0x3000
}

pub fn is_white_space(c: char) -> (r: bool)
    ensures
        r == is_space(c),
{
    let n = c as u32;
    (0x09 <= n && n <= 0x0d) || n == 0x20 || n == 0x85 || n == 0xa0 || n == 0x1680 || (0x2000 <= n
        && n <= 0x200a) || n == 0x2028 || n == 0x2029 || n == 0x202f || n == 0x205f || n == 0x3000
}

/// `s` from its first character on that is no space.
pub open spec fn without_leading_spaces(s: Seq<char>) -> Seq<char>
    decreases s.len(),
{
    if s.len() > 0 && is_space(s[0]) {
        without_leading_spaces(s.skip(1))
    } else {
        s
    }
}

/// `s` up to its last character that is no space.
pub open spec fn without_trailing_spaces(s: Seq<char>) -> Seq<char>
    decreases s.len(),
{
    if s.len() > 0 && is_space(s.last()) {
        without_trailing_spaces(s.drop_last())
    } else {
        s
    }
}

/// `s` without the spaces at its two ends.
pub open spec fn trimmed(s: Seq<char>) -> Seq<char> {
    without_trailing_spaces(without_leading_spaces(s))
}

/// How many characters stand before the first space of `s`.
pub open spec fn word_len(s: Seq<char>) -> nat
    decreases s.len(),
{
    if s.len() == 0 || is_space(s[0]) {
        0
    } else {
        1 + word_len(s.skip(1))
    }
}

/// The words of `s`: its longest parts without spaces.
pub open spec fn words(s: Seq<char>) -> Seq<Seq<char>>
    decreases s.len(),
    via words_end
{
    let rest = without_leading_spaces(s);
    if rest.len() == 0 {
        seq![]
    } else {
        let n = word_len(rest) as int;
        seq![rest.take(n)] + words(rest.skip(n))
    }
}

#[via_fn]
proof fn words_end(s: Seq<char>) {
    let rest = without_leading_spaces(s);
    lemma_leading(s);
    if rest.len() > 0 {
        lemma_word_len(rest);
    }
}

proof fn lemma_leading(s: Seq<char>)
    ensures
        without_leading_spaces(s).len() <= s.len(),
        without_leading_spaces(s).len() > 0 ==> !is_space(without_leading_spaces(s)[0]),
    decreases s.len(),
{
    if s.len() > 0 && is_space(s[0]) {
        lemma_leading(s.skip(1));
    }
}

proof fn lemma_word_len(s: Seq<char>)
    ensures
        word_len(s) <= s.len(),
        s.len() > 0 && !is_space(s[0]) ==> word_len(s) > 0,
    decreases s.len(),
{
    if s.len() > 0 && !is_space(s[0]) {
        lemma_word_len(s.skip(1));
    }
}

fn skip_spaces<'a>(s: &'a str) -> (r: &'a str)
    ensures
        r@ == without_leading_spaces(s@),
{
    let cs = text::chars_of(s);
    let mut i: usize = 0;
    assert(s@.skip(0) =~= s@);
    while i < cs.len() && is_white_space(cs[i])
        invariant
            i <= cs.len(),
            cs@ == s@,
            without_leading_spaces(s@.skip(i as int)) == without_leading_spaces(s@),
        decreases cs.len() - i,
    {
        assert(s@.skip(i as int).skip(1) =~= s@.skip(i + 1));
        i += 1;
    }
    s.substring_char(i, cs.len())
}

/// Takes the spaces off the two ends of `s`.
pub fn trim<'a>(s: &'a str) -> (r: &'a str)
    ensures
        r@ == trimmed(s@),
{
    let s = skip_spaces(s);
    let cs = text::chars_of(s);
    let mut n: usize = cs.len();
    assert(s@.take(n as int) =~= s@);
    while n > 0 && is_white_space(cs[n - 1])
        invariant
            n <= cs.len(),
            cs@ == s@,
            without_trailing_spaces(s@.take(n as int)) == without_trailing_spaces(s@),
        decreases n,
    {
        assert(s@.take(n as int).drop_last() =~= s@.take(n - 1));
        n -= 1;
    }
    s.substring_char(0, n)
}

/// The word at a place in `s`, counting from zero.
pub fn nth_word<'a>(s: &'a str, k: usize) -> (r: Option<&'a str>)
    ensures
        match r {
            Some(word) => k < words(s@).len() && word@ == words(s@)[k as int],
            None => k >= words(s@).len(),
        },
{
    let mut rest = skip_spaces(s);
    let mut i: usize = 0;
    let ghost all = words(s@);
    proof {
        lemma_words(s@);
        assert(all.skip(0) =~= all);
    }
    loop
        invariant
            i <= k,
            all == words(s@),
            i <= all.len(),
            all.skip(i as int) == words(rest@),
            without_leading_spaces(rest@) == rest@,
        decreases rest@.len(),
    {
        let cs = text::chars_of(rest);
        if cs.len() == 0 {
            assert(all.skip(i as int).len() == 0);
            return None;
        }
        let mut n: usize = 0;
        assert(rest@.skip(0) =~= rest@);
        while n < cs.len() && !is_white_space(cs[n])
            invariant
                n <= cs.len(),
                cs@ == rest@,
                n + word_len(rest@.skip(n as int)) == word_len(rest@),
            decreases cs.len() - n,
        {
            assert(rest@.skip(n as int).skip(1) =~= rest@.skip(n + 1));
            n += 1;
        }
        assert(word_len(rest@.skip(n as int)) == 0);
        proof {
            lemma_leading(rest@);
            lemma_word_len(rest@);
            assert(all[i as int] == all.skip(i as int)[0]);
            assert(all.skip(i as int).skip(1) =~= all.skip(i + 1));
        }
        let word = rest.substring_char(0, n);
        if i == k {
            return Some(word);
        }
        let tail = rest.substring_char(n, cs.len());
        let ghost here = rest@;
        rest = skip_spaces(tail);
        proof {
            lemma_leading(tail@);
            lemma_words(tail@);
            assert(words(here).skip(1) =~= words(tail@));
        }
        i += 1;
    }
}

proof fn lemma_words(s: Seq<char>)
    ensures
        words(without_leading_spaces(s)) == words(s),
        without_leading_spaces(without_leading_spaces(s)) == without_leading_spaces(s),
    decreases s.len(),
{
    if s.len() > 0 && is_space(s[0]) {
        lemma_words(s.skip(1));
    }
}

// ---------------------------------------------------------------------------
// Columns
// ---------------------------------------------------------------------------
/// A row of `n` times the same character.
pub open spec fn repeated(c: char, n: nat) -> Seq<char> {
    Seq::new(n, |i: int| c)
}

/// `s`, followed by as many spaces as it takes to make it `width` wide.
pub open spec fn padded(s: Seq<char>, width: nat) -> Seq<char> {
    if s.len() < width {
        s + repeated(' ', (width - s.len()) as nat)
    } else {
        s
    }
}

/// Writes `s`, padded with spaces to a width.
pub fn pad(s: &str, width: usize) -> (r: String)
    ensures
        r@ == padded(s@, width as nat),
{
    let mut n = s.unicode_len();
    let mut r = s.to_string();
    let ghost start = n as nat;
    assert(r@ =~= s@ + repeated(' ', 0));
    while n < width
        invariant
            start == s@.len(),
            start <= n,
            n <= width || n == start,
            r@ == s@ + repeated(' ', (n - start) as nat),
        decreases width - n,
    {
        r.append(" ");
        n += 1;
        proof {
            reveal_strlit(" ");
            assert(r@ =~= s@ + repeated(' ', (n - start) as nat));
        }
    }
    assert(s@ + repeated(' ', 0) =~= s@);
    r
}

/// Writes a row of dashes.
pub fn dashes(n: usize) -> (r: String)
    ensures
        r@ == repeated('-', n as nat),
{
    let mut r = "".to_string();
    let mut i: usize = 0;
    proof {
        reveal_strlit("");
        assert(r@ =~= repeated('-', 0));
    }
    while i < n
        invariant
            i <= n,
            r@ == repeated('-', i as nat),
        decreases n - i,
    {
        r.append("-");
        i += 1;
        proof {
            reveal_strlit("-");
            assert(r@ =~= repeated('-', i as nat));
        }
    }
    r
}

// ---------------------------------------------------------------------------
// Laws
// ---------------------------------------------------------------------------
/// The characters that are white space.
pub proof fn law_white_space(c: char)
    ensures
        is_space(c) <==> {
            ||| '\t' <= c <= '\r'
            ||| c == ' '
            ||| c == '\u{85}'
            ||| c == '\u{a0}'
            ||| c == '\u{1680}'
            ||| '\u{2000}' <= c <= '\u{200a}'
            ||| c == '\u{2028}'
            ||| c == '\u{2029}'
            ||| c == '\u{202f}'
            ||| c == '\u{205f}'
            ||| c == '\u{3000}'
        },
{
}

/// Does `s` hold nothing but spaces?
pub open spec fn all_spaces(s: Seq<char>) -> bool {
    forall|i: int| 0 <= i < s.len() ==> is_space(#[trigger] s[i])
}

/// Does `s` hold no space?
pub open spec fn no_spaces(s: Seq<char>) -> bool {
    forall|i: int| 0 <= i < s.len() ==> !is_space(#[trigger] s[i])
}

proof fn lemma_leading_spaces_go(gap: Seq<char>, s: Seq<char>)
    requires
        all_spaces(gap),
        s.len() > 0 ==> !is_space(s[0]),
    ensures
        without_leading_spaces(gap + s) == s,
    decreases gap.len(),
{
    if gap.len() == 0 {
        assert(gap + s =~= s);
    } else {
        assert((gap + s)[0] == gap[0]);
        assert((gap + s).skip(1) =~= gap.skip(1) + s);
        assert forall|i: int| 0 <= i < gap.skip(1).len() implies is_space(
            #[trigger] gap.skip(1)[i],
        ) by {
            assert(is_space(gap[i + 1]));
        }
        lemma_leading_spaces_go(gap.skip(1), s);
    }
}

proof fn lemma_trailing_spaces_go(s: Seq<char>, gap: Seq<char>)
    requires
        all_spaces(gap),
        s.len() > 0 ==> !is_space(s.last()),
    ensures
        without_trailing_spaces(s + gap) == s,
    decreases gap.len(),
{
    if gap.len() == 0 {
        assert(s + gap =~= s);
    } else {
        assert((s + gap).last() == gap[gap.len() - 1]);
        assert((s + gap).drop_last() =~= s + gap.drop_last());
        lemma_trailing_spaces_go(s, gap.drop_last());
    }
}

/// Trimming takes off the spaces at the two ends, all of them and no more.
pub proof fn law_trimming(head: Seq<char>, s: Seq<char>, tail: Seq<char>)
    requires
        all_spaces(head),
        all_spaces(tail),
        s.len() > 0 ==> !is_space(s[0]) && !is_space(s.last()),
    ensures
        trimmed(head + s + tail) == s,
{
    if s.len() > 0 {
        assert(head + s + tail =~= head + (s + tail));
        lemma_leading_spaces_go(head, s + tail);
        lemma_trailing_spaces_go(s, tail);
    } else {
        let all = head + s + tail;
        assert forall|i: int| 0 <= i < all.len() implies is_space(#[trigger] all[i]) by {
            if i < head.len() {
                assert(is_space(head[i]));
            } else {
                assert(is_space(tail[i - head.len()]));
            }
        }
        assert(all =~= all + s);
        lemma_leading_spaces_go(all, s);
        assert(s =~= s + Seq::<char>::empty());
        lemma_trailing_spaces_go(s, Seq::empty());
    }
}

proof fn lemma_word_ends(word: Seq<char>, rest: Seq<char>)
    requires
        no_spaces(word),
        rest.len() > 0 ==> is_space(rest[0]),
    ensures
        word_len(word + rest) == word.len(),
    decreases word.len(),
{
    if word.len() == 0 {
        assert(word + rest =~= rest);
    } else {
        assert((word + rest)[0] == word[0]);
        assert((word + rest).skip(1) =~= word.skip(1) + rest);
        assert forall|i: int| 0 <= i < word.skip(1).len() implies !is_space(
            #[trigger] word.skip(1)[i],
        ) by {
            assert(!is_space(word[i + 1]));
        }
        lemma_word_ends(word.skip(1), rest);
    }
}

/// The words of a text: spaces part them, and are part of none.
pub proof fn law_words(gap: Seq<char>, word: Seq<char>, rest: Seq<char>)
    requires
        all_spaces(gap),
        word.len() > 0,
        no_spaces(word),
        rest.len() > 0 ==> is_space(rest[0]),
    ensures
        words(gap) == Seq::<Seq<char>>::empty(),
        words(gap + word + rest) == seq![word] + words(rest),
{
    let all = gap + word + rest;
    assert(gap + Seq::<char>::empty() =~= gap);
    lemma_leading_spaces_go(gap, Seq::empty());
    assert(words(gap) =~= Seq::<Seq<char>>::empty());
    assert(!is_space(word[0]));
    assert(all =~= gap + (word + rest));
    lemma_leading_spaces_go(gap, word + rest);
    lemma_word_ends(word, rest);
    assert((word + rest).take(word.len() as int) =~= word);
    assert((word + rest).skip(word.len() as int) =~= rest);
}

/// A padded text is as wide as asked for, or as the text where that is wider: the
/// text, and spaces behind it.
pub proof fn law_padding(s: Seq<char>, width: nat, c: char)
    ensures
        s.len() >= width ==> padded(s, width) == s,
        s.len() < width ==> padded(s, width).len() == width,
        s.len() < width ==> padded(s, width).take(s.len() as int) == s,
        forall|i: int| s.len() <= i < width ==> #[trigger] padded(s, width)[i] == ' ',
        repeated(c, width).len() == width,
        forall|i: int| 0 <= i < width ==> #[trigger] repeated(c, width)[i] == c,
{
    if s.len() < width {
        assert(padded(s, width).take(s.len() as int) =~= s);
    }
}

} // verus!
