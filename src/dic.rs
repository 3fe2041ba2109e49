//! Word dictionaries: a list of words exported as an array of
//! null-terminated strings.

use vstd::prelude::*;
use crate::buffer::{c_strings_match, ffi_free_string, texts_convert, texts_view, to_c_strings};

verus! {

/// An exported dictionary: its word count and each word, null-terminated.
pub struct physis_Dictionary {
    pub num_words: i32,
    pub words: Vec<Vec<u8>>,
}

impl physis_Dictionary {
    /// The sentinel dictionary: no words.
    pub open spec fn is_empty(&self) -> bool {
        self.num_words == 0 && self.words@.len() == 0
    }

    /// The sentinel dictionary.
    pub fn empty() -> (r: physis_Dictionary)
        ensures
            r.is_empty(),
    {
        physis_Dictionary { num_words: 0, words: Vec::new() }
    }
}

impl Default for physis_Dictionary {
    fn default() -> (r: physis_Dictionary)
        ensures
            r.is_empty(),
    {
        physis_Dictionary::empty()
    }
}

/// Every word exports, and the count fits the exported count.
pub open spec fn words_convert(words: Seq<Seq<u8>>) -> bool {
    words.len() <= i32::MAX && texts_convert(words)
}

/// The exported dictionary carries the words, in order.
pub open spec fn dictionary_matches(d: physis_Dictionary, words: Seq<Seq<u8>>) -> bool {
    d.num_words as int == words.len() && c_strings_match(d.words@, words)
}

/// Exports a list of words; if any word holds a NUL byte, or there are
/// more than fit a signed 32-bit count, the result is the empty sentinel.
pub fn to_c_dictionary(words: &Vec<Vec<u8>>) -> (r: physis_Dictionary)
    ensures
        words_convert(texts_view(words@)) ==> dictionary_matches(r, texts_view(words@)),
        !words_convert(texts_view(words@)) ==> r.is_empty(),
{
    if words.len() > i32::MAX as usize {
        return physis_Dictionary::empty();
    }
    match to_c_strings(words) {
        Some(cs) => physis_Dictionary { num_words: cs.len() as i32, words: cs },
        None => physis_Dictionary::empty(),
    }
}

/// Releases an exported dictionary, returning how many elements were
/// destroyed: each word's slot and its string. The sentinel releases
/// nothing.
pub fn physis_dictionary_free(dic: physis_Dictionary) -> (released: usize)
    requires
        2 * dic.words@.len() <= usize::MAX,
    ensures
        released == 2 * dic.words@.len(),
{
    let ghost total = dic.words@.len();
    let mut words = dic.words;
    let mut released: usize = 0;
    while words.len() > 0
        invariant
            2 * total <= usize::MAX,
            released + 2 * words@.len() == 2 * total,
        decreases words@.len(),
    {
        let w = words.pop().unwrap();
        released = released + 1 + ffi_free_string(Some(w));
    }
    released
}

/// Releasing a dictionary exported from `n` words destroys as many elements
/// as dropping those words would: each word and its bytes.
pub proof fn lemma_dictionary_release_matches_drop(words: Seq<Seq<u8>>, d: physis_Dictionary)
    requires
        words_convert(words),
        dictionary_matches(d, words),
    ensures
        2 * d.words@.len() == 2 * words.len(),
{
}

} // verus!
