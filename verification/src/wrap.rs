//! Greedy word wrapping by character count.
//!
//! A text is read as its words: the longest runs of characters that are not
//! separators. The words are laid out in order. A word joins the line before
//! it, after one space, where the line then holds no more characters than the
//! width; else it begins a new line. A word is never cut, so a word longer
//! than the width has a line to itself.

use crate::text::{chars_of, string_of};
use vstd::prelude::*;

verus! {

/// Whether `c` parts words: a space, a tab, a line feed or a carriage return.
pub open spec fn is_separator(c: char) -> bool {
    c == ' ' || c == '\t' || c == '\n' || c == '\r'
}

/// Whether `word` can stand in a line: it has a character and no separator.
pub open spec fn is_word(word: Seq<char>) -> bool {
    word.len() > 0 && forall|i: int| 0 <= i < word.len() ==> !is_separator(#[trigger] word[i])
}

/// Whether each of `words` is a word.
pub open spec fn all_words(words: Seq<Seq<char>>) -> bool {
    forall|k: int| 0 <= k < words.len() ==> is_word(#[trigger] words[k])
}

/// The words of `text`, in order.
pub open spec fn spec_words(text: Seq<char>) -> Seq<Seq<char>>
    decreases text.len(),
{
    if text.len() == 0 {
        Seq::empty()
    } else if is_separator(text.last()) {
        spec_words(text.drop_last())
    } else if text.len() >= 2 && !is_separator(text[text.len() - 2]) {
        spec_words(text.drop_last()).drop_last().push(
            spec_words(text.drop_last()).last().push(text.last()),
        )
    } else {
        spec_words(text.drop_last()).push(seq![text.last()])
    }
}

/// Number of characters on the last line once `words` are laid out.
pub open spec fn spec_line_len(words: Seq<Seq<char>>, width: nat) -> nat
    decreases words.len(),
{
    if words.len() == 0 {
        0
    } else if words.len() == 1 {
        words[0].len()
    } else if spec_line_len(words.drop_last(), width) + 1 + words.last().len() <= width {
        spec_line_len(words.drop_last(), width) + 1 + words.last().len()
    } else {
        words.last().len()
    }
}

/// `words` laid out greedily in lines of `width` characters: a space between
/// two words of a line, a line feed between two lines.
pub open spec fn spec_layout(words: Seq<Seq<char>>, width: nat) -> Seq<char>
    decreases words.len(),
{
    if words.len() == 0 {
        Seq::empty()
    } else if words.len() == 1 {
        words[0]
    } else if spec_line_len(words.drop_last(), width) + 1 + words.last().len() <= width {
        spec_layout(words.drop_last(), width) + seq![' '] + words.last()
    } else {
        spec_layout(words.drop_last(), width) + seq!['\n'] + words.last()
    }
}

/// `text` wrapped to lines of `width` characters.
pub open spec fn spec_wrap(text: Seq<char>, width: nat) -> Seq<char> {
    spec_layout(spec_words(text), width)
}

/// Every word of a text has a character and no separator.
pub proof fn lemma_words_are_words(text: Seq<char>)
    ensures
        all_words(spec_words(text)),
        text.len() > 0 && !is_separator(text.last()) ==> spec_words(text).len() > 0,
    decreases text.len(),
{
    if text.len() > 0 {
        let before = spec_words(text.drop_last());
        lemma_words_are_words(text.drop_last());
        if is_separator(text.last()) {
        } else if text.len() >= 2 && !is_separator(text[text.len() - 2]) {
            let grown = before.last().push(text.last());
            assert(is_word(grown)) by {
                assert forall|i: int| 0 <= i < grown.len() implies !is_separator(
                    #[trigger] grown[i],
                ) by {}
            }
            let after = before.drop_last().push(grown);
            assert forall|k: int| 0 <= k < after.len() implies is_word(#[trigger] after[k]) by {}
        } else {
            let after = before.push(seq![text.last()]);
            assert forall|k: int| 0 <= k < after.len() implies is_word(#[trigger] after[k]) by {}
        }
    }
}

/// A word without its last character is a word still, where it had two or more.
proof fn lemma_shorter_word(word: Seq<char>)
    requires
        is_word(word),
        word.len() >= 2,
    ensures
        is_word(word.drop_last()),
        word.drop_last().push(word.last()) == word,
{
    let shorter = word.drop_last();
    assert forall|i: int| 0 <= i < shorter.len() implies !is_separator(#[trigger] shorter[i]) by {
        assert(shorter[i] == word[i]);
    }
    assert(shorter.push(word.last()) =~= word);
}

/// A word that follows a separator is read as itself, after the words before it.
pub proof fn lemma_words_after_separator(head: Seq<char>, separator: char, word: Seq<char>)
    requires
        is_separator(separator),
        is_word(word),
    ensures
        spec_words(head + seq![separator] + word) == spec_words(head).push(word),
    decreases word.len(),
{
    let text = head + seq![separator] + word;
    if word.len() == 1 {
        assert(text.drop_last().drop_last() =~= head);
        assert(spec_words(text.drop_last()) == spec_words(head));
        assert(seq![text.last()] =~= word);
    } else {
        lemma_shorter_word(word);
        assert(text.drop_last() =~= head + seq![separator] + word.drop_last());
        lemma_words_after_separator(head, separator, word.drop_last());
    }
}

/// A word alone is read as itself.
pub proof fn lemma_words_of_word(word: Seq<char>)
    requires
        is_word(word),
    ensures
        spec_words(word) == seq![word],
    decreases word.len(),
{
    if word.len() == 1 {
        assert(spec_words(word.drop_last()) =~= Seq::<Seq<char>>::empty());
        assert(seq![word.last()] =~= word);
    } else {
        lemma_shorter_word(word);
        lemma_words_of_word(word.drop_last());
    }
}

/// Laying words out and reading the lines again gives the same words in the
/// same order: no word is cut, joined to another, lost or made up.
pub proof fn lemma_layout_keeps_words(words: Seq<Seq<char>>, width: nat)
    requires
        all_words(words),
    ensures
        spec_words(spec_layout(words, width)) == words,
    decreases words.len(),
{
    if words.len() == 0 {
    } else if words.len() == 1 {
        lemma_words_of_word(words[0]);
    } else {
        let init = words.drop_last();
        let word = words.last();
        assert forall|k: int| 0 <= k < init.len() implies is_word(#[trigger] init[k]) by {
            assert(init[k] == words[k]);
        }
        lemma_layout_keeps_words(init, width);
        let separator = if spec_line_len(init, width) + 1 + word.len() <= width {
            ' '
        } else {
            '\n'
        };
        lemma_words_after_separator(spec_layout(init, width), separator, word);
        assert(init.push(word) =~= words);
    }
}

/// Wrapping keeps the words of a text, in their order.
pub proof fn law_wrap_keeps_words(text: Seq<char>, width: nat)
    ensures
        spec_words(spec_wrap(text, width)) == spec_words(text),
{
    lemma_words_are_words(text);
    lemma_layout_keeps_words(spec_words(text), width);
}

/// Wrapping a text that is already wrapped to the same width changes
/// nothing: every line break stays where it is.
pub proof fn law_wrap_is_idempotent(text: Seq<char>, width: nat)
    ensures
        spec_wrap(spec_wrap(text, width), width) == spec_wrap(text, width),
{
    law_wrap_keeps_words(text, width);
}

/// However many words are laid out, the last line holds no more characters
/// than the width, unless it holds one word alone that is longer.
pub proof fn law_line_fits(words: Seq<Seq<char>>, width: nat)
    requires
        words.len() > 0,
    ensures
        spec_line_len(words, width) <= width || spec_line_len(words, width) == words.last().len(),
        spec_line_len(words, width) >= words.last().len(),
        spec_line_len(words, width) <= spec_layout(words, width).len(),
    decreases words.len(),
{
    if words.len() >= 2 {
        law_line_fits(words.drop_last(), width);
    }
}

proof fn lemma_one_more_word(done: Seq<Seq<char>>, word: Seq<char>)
    requires
        all_words(done),
        is_word(word),
    ensures
        all_words(done.push(word)),
        done.push(word).drop_last() == done,
        done.push(word).last() == word,
{
    let grown = done.push(word);
    assert(grown.drop_last() =~= done);
    assert forall|k: int| 0 <= k < grown.len() implies is_word(#[trigger] grown[k]) by {
        if k < done.len() {
            assert(grown[k] == done[k]);
        }
    }
}

proof fn lemma_one_more_character(done: Seq<Seq<char>>, word: Seq<char>, c: char)
    requires
        !is_separator(c),
        word.len() > 0 ==> is_word(word),
    ensures
        is_word(word.push(c)),
        word.len() > 0 ==> done.push(word).drop_last().push(done.push(word).last().push(c))
            == done.push(word.push(c)),
        word.len() == 0 ==> word.push(c) == seq![c],
{
    let grown = word.push(c);
    assert forall|k: int| 0 <= k < grown.len() implies !is_separator(#[trigger] grown[k]) by {
        if k < word.len() {
            assert(grown[k] == word[k]);
        }
    }
    assert(done.push(word).drop_last() =~= done);
    if word.len() == 0 {
        assert(grown =~= seq![c]);
    }
}

/// Wraps `text` to lines of at most `width` characters.
///
/// The result holds the words of `text` in their order, with one space
/// between two words of a line and a line feed between two lines. Each word
/// is put on the current line where it fits there, else on a new one.
pub fn wrap(text: &str, width: usize) -> (wrapped: String)
    ensures
        wrapped@ == spec_wrap(text@, width as nat),
        spec_words(wrapped@) == spec_words(text@),
{
    proof {
        law_wrap_keeps_words(text@, width as nat);
    }
    let chars = chars_of(text);
    let mut out: Vec<char> = Vec::new();
    let mut word: Vec<char> = Vec::new();
    let mut line_len: usize = 0;
    let mut started: bool = false;
    let ghost mut done: Seq<Seq<char>> = Seq::empty();
    let mut i: usize = 0;
    while i < chars.len()
        invariant
            i <= chars.len(),
            chars@ == text@,
            started == (done.len() > 0),
            out@ == spec_layout(done, width as nat),
            line_len == spec_line_len(done, width as nat),
            line_len <= out@.len(),
            (if started { out@.len() + 1 } else { 0 }) + word@.len() <= i,
            all_words(done),
            word@.len() > 0 ==> is_word(word@) && spec_words(chars@.take(i as int)) == done.push(
                word@,
            ) && !is_separator(chars@[i - 1]),
            word@.len() == 0 ==> spec_words(chars@.take(i as int)) == done && (i == 0
                || is_separator(chars@[i - 1])),
        decreases chars.len() - i,
    {
        let c = chars[i];
        assert(chars@.take(i + 1).drop_last() =~= chars@.take(i as int));
        if c == ' ' || c == '\t' || c == '\n' || c == '\r' {
            if word.len() > 0 {
                proof {
                    lemma_one_more_word(done, word@);
                    law_line_fits(done.push(word@), width as nat);
                }
                if !started {
                    line_len = word.len();
                    started = true;
                } else if line_len + 1 + word.len() <= width {
                    out.push(' ');
                    line_len = line_len + 1 + word.len();
                } else {
                    out.push('\n');
                    line_len = word.len();
                }
                proof {
                    done = done.push(word@);
                }
                out.append(&mut word);
            }
        } else {
            proof {
                lemma_one_more_character(done, word@, c);
            }
            word.push(c);
        }
        i += 1;
    }
    assert(chars@.take(i as int) =~= chars@);
    if word.len() > 0 {
        proof {
            lemma_one_more_word(done, word@);
        }
        if !started {
        } else if line_len + 1 + word.len() <= width {
            out.push(' ');
        } else {
            out.push('\n');
        }
        proof {
            done = done.push(word@);
        }
        out.append(&mut word);
    }
    string_of(&out)
}

} // verus!
