//! A command line as the words that it is made of.

use vstd::prelude::*;
use crate::text::chars_of;

verus! {

/// `c` is white space: a character with the Unicode property
/// `White_Space`.
pub open spec fn is_space(c: char) -> bool {
    ||| '\u{9}' <= c && c <= '\u{d}'
    ||| c == ' '
    ||| c == '\u{85}'
    ||| c == '\u{a0}'
    ||| c == '\u{1680}'
    ||| '\u{2000}' <= c && c <= '\u{200a}'
    ||| c == '\u{2028}'
    ||| c == '\u{2029}'
    ||| c == '\u{202f}'
    ||| c == '\u{205f}'
    ||| c == '\u{3000}'
}

fn is_space_char(c: char) -> (space: bool)
    ensures
        space == is_space(c),
{
    ('\u{9}' <= c && c <= '\u{d}') || c == ' ' || c == '\u{85}' || c == '\u{a0}' || c
        == '\u{1680}' || ('\u{2000}' <= c && c <= '\u{200a}') || c == '\u{2028}' || c
        == '\u{2029}' || c == '\u{202f}' || c == '\u{205f}' || c == '\u{3000}'
}

/// The words of `text`, in order: its longest stretches without white
/// space.
pub open spec fn words_of(text: Seq<char>) -> Seq<Seq<char>>
    decreases text.len(),
{
    if text.len() == 0 {
        Seq::empty()
    } else {
        let before = words_of(text.drop_last());
        if is_space(text.last()) {
            before
        } else if text.len() >= 2 && !is_space(text[text.len() - 2]) {
            before.drop_last().push(before.last().push(text.last()))
        } else {
            before.push(seq![text.last()])
        }
    }
}

/// What each of `strings` holds.
pub open spec fn texts(strings: Seq<String>) -> Seq<Seq<char>> {
    strings.map_values(|s: String| s@)
}

/// Splits `text` into its words. A text of white space only has none.
pub fn split_words(text: &str) -> (words: Vec<String>)
    ensures
        texts(words@) == words_of(text@),
{
    let chars = chars_of(text);
    let mut words: Vec<String> = Vec::new();
    let mut word = String::new();
    let mut in_word = false;
    let mut i: usize = 0;
    assert(chars@.take(0) =~= Seq::<char>::empty());
    assert(texts(words@) =~= Seq::<Seq<char>>::empty());
    while i < chars.len()
        invariant
            i <= chars.len(),
            in_word <==> i > 0 && !is_space(chars@[i - 1]),
            in_word ==> word@.len() > 0,
            !in_word ==> word@.len() == 0,
            words_of(chars@.take(i as int)) == if in_word {
                texts(words@).push(word@)
            } else {
                texts(words@)
            },
        decreases chars.len() - i,
    {
        let c = chars[i];
        proof {
            let longer = chars@.take(i + 1);
            assert(longer.drop_last() =~= chars@.take(i as int));
            assert(longer.last() == c);
            if i > 0 {
                assert(longer[longer.len() - 2] == chars@[i - 1]);
            }
        }
        if is_space_char(c) {
            if in_word {
                let ghost before = texts(words@);
                let ghost finished = word@;
                words.push(word);
                word = String::new();
                in_word = false;
                assert(texts(words@) =~= before.push(finished));
            }
        } else {
            let ghost before = word@;
            word.push(c);
            proof {
                if in_word {
                    assert(texts(words@).push(before).drop_last() =~= texts(words@));
                } else {
                    assert(word@ =~= seq![c]);
                }
            }
            in_word = true;
        }
        i += 1;
    }
    assert(chars@.take(chars.len() as int) =~= chars@);
    if in_word {
        let ghost before = texts(words@);
        let ghost finished = word@;
        words.push(word);
        assert(texts(words@) =~= before.push(finished));
    }
    words
}

/// `word` is at least one character long and holds no white space.
pub open spec fn is_word(word: Seq<char>) -> bool {
    &&& word.len() > 0
    &&& forall|j: int| 0 <= j < word.len() ==> !is_space(#[trigger] word[j])
}

/// The words of a text are words, and a text has none only where it is
/// white space throughout.
pub proof fn lemma_words_are_words(text: Seq<char>)
    ensures
        forall|i: int| 0 <= i < words_of(text).len() ==> is_word(#[trigger] words_of(text)[i]),
        words_of(text).len() == 0 <==> forall|k: int|
            0 <= k < text.len() ==> is_space(#[trigger] text[k]),
    decreases text.len(),
{
    if text.len() > 0 {
        let shorter = text.drop_last();
        let before = words_of(shorter);
        lemma_words_are_words(shorter);
        assert forall|k: int| 0 <= k < shorter.len() implies shorter[k] == text[k] by {}
        if is_space(text.last()) {
            if before.len() == 0 {
                assert forall|k: int| 0 <= k < text.len() implies is_space(#[trigger] text[k]) by {
                    if k < shorter.len() {
                        assert(is_space(shorter[k]));
                    }
                }
            } else {
                let k = choose|k: int| 0 <= k < shorter.len() && !is_space(#[trigger] shorter[k]);
                assert(!is_space(text[k]));
            }
        } else if text.len() >= 2 && !is_space(text[text.len() - 2]) {
            assert(!is_space(shorter[shorter.len() - 1]));
            assert(before.len() > 0);
            let grown = before.last().push(text.last());
            assert(is_word(before.last()));
            assert forall|j: int| 0 <= j < grown.len() implies !is_space(#[trigger] grown[j]) by {
                if j < before.last().len() {
                    assert(grown[j] == before.last()[j]);
                }
            }
            assert(is_word(grown));
        } else {
            assert(is_word(seq![text.last()]));
        }
    }
}

} // verus!
