//! The word of the animated status line, drawn at random for each analysis.

use rand::seq::SliceRandom;
use vstd::prelude::*;

verus! {

/// The words among which the status line of a running analysis is drawn.
pub open spec fn spec_analyzing_synonyms() -> Seq<Seq<char>> {
    seq![
        "Scrutinizing"@,
        "Dissecting"@,
        "Examining"@,
        "Evaluating"@,
        "Deconstructing"@,
        "Appraising"@,
        "Assessing"@,
        "Investigating"@,
        "Elucidating"@,
        "Interrogating"@,
    ]
}

/// The characters of each word of a list.
pub open spec fn texts_of(words: Seq<&'static str>) -> Seq<Seq<char>> {
    Seq::new(words.len(), |i: int| words[i]@)
}

/// The words among which the status line of a running analysis is drawn.
pub fn analyzing_synonyms() -> (words: &'static [&'static str])
    ensures
        texts_of(words@) == spec_analyzing_synonyms(),
{
    let words: &'static [&'static str] = &[
        "Scrutinizing",
        "Dissecting",
        "Examining",
        "Evaluating",
        "Deconstructing",
        "Appraising",
        "Assessing",
        "Investigating",
        "Elucidating",
        "Interrogating",
    ];
    assert(texts_of(words@) =~= spec_analyzing_synonyms());
    words
}

/// The generator of random numbers that `rand` keeps for each thread.
#[verifier::external_type_specification]
#[verifier::external_body]
pub struct ExThreadRng(rand::rngs::ThreadRng);

/// `rand::thread_rng`. Trusted, with nothing claimed of the generator it
/// hands out. It panics where the operating system gives no randomness to
/// seed the generator with.
pub assume_specification[ rand::thread_rng ]() -> (rng: rand::rngs::ThreadRng);

/// `SliceRandom::choose` of the `rand` crate. Trusted: an empty list gives
/// nothing, and any other list gives one of its items. Which one is left
/// open, and so is what becomes of the generator.
#[verifier::external_body]
fn choose_word(words: &[&'static str], rng: &mut rand::rngs::ThreadRng) -> (chosen: Option<
    &'static str,
>)
    ensures
        words@.len() == 0 ==> chosen is None,
        words@.len() > 0 ==> chosen is Some && words@.contains(chosen->0),
{
    words.choose(rng).copied()
}

/// Whether `word` may be drawn from `words`: it is one of them, or the word
/// "Analyzing" where there are none.
pub open spec fn is_pick(words: Seq<Seq<char>>, word: Seq<char>) -> bool {
    if words.len() == 0 {
        word == "Analyzing"@
    } else {
        words.contains(word)
    }
}

/// What the status line shows for a draw from `words`: the word drawn, or
/// "Analyzing" where nothing was drawn.
pub fn word_or_fallback(chosen: Option<&'static str>) -> (word: String)
    ensures
        chosen is Some ==> word@ == (chosen->0)@,
        chosen is None ==> word@ == "Analyzing"@,
{
    match chosen {
        Some(w) => w.to_owned(),
        None => "Analyzing".to_owned(),
    }
}

/// Draws a word from `words` at random, or yields "Analyzing" where the
/// list is empty.
pub fn pick_word(words: &[&'static str]) -> (word: String)
    ensures
        is_pick(texts_of(words@), word@),
{
    let mut rng = rand::thread_rng();
    let chosen = choose_word(words, &mut rng);
    proof {
        if words@.len() > 0 {
            let i = choose|i: int| 0 <= i < words@.len() && words@[i] == chosen->0;
            assert(texts_of(words@)[i] == (chosen->0)@);
        }
    }
    word_or_fallback(chosen)
}

/// Whether `word` is one of the status words.
pub open spec fn is_status_word(word: Seq<char>) -> bool {
    spec_analyzing_synonyms().contains(word)
}

/// Draws the status word of an analysis at random.
pub fn pick_status_word() -> (word: String)
    ensures
        is_status_word(word@),
{
    pick_word(analyzing_synonyms())
}

} // verus!
