use vstd::prelude::*;
use vstd::string::*;
use crate::text::same_text;

verus! {

/// The options that a native function is registered with.
#[derive(Clone, Copy, Debug, PartialEq, Eq, Structural)]
pub struct Attributes {
    /// Gated behind the flag for unstable features.
    pub is_unstable: bool,
    /// The entry point receives the scope.
    pub is_v8: bool,
    /// A fast entry point is required.
    pub must_be_fast: bool,
    /// Completions are delivered on a later turn.
    pub deferred: bool,
    /// The parameters include an optional view of linear memory.
    pub is_wasm: bool,
}

/// `word` is among `words`.
pub open spec fn has_word(words: Seq<String>, word: Seq<char>) -> bool {
    exists|i: int| 0 <= i < words.len() && (#[trigger] words[i])@ == word
}

/// `word` names an option.
pub open spec fn known_word(word: Seq<char>) -> bool {
    word == "unstable"@ || word == "v8"@ || word == "fast"@ || word == "deferred"@ || word
        == "wasm"@
}

/// Every word names an option.
pub open spec fn all_known(words: Seq<String>) -> bool {
    forall|i: int| 0 <= i < words.len() ==> known_word((#[trigger] words[i])@)
}

/// The options that a list of known words stands for. Linear memory is only
/// offered to fast entry points, so `wasm` asks for one.
pub open spec fn spec_from_words(words: Seq<String>) -> Attributes {
    Attributes {
        is_unstable: has_word(words, "unstable"@),
        is_v8: has_word(words, "v8"@),
        must_be_fast: has_word(words, "wasm"@) || has_word(words, "fast"@),
        deferred: has_word(words, "deferred"@),
        is_wasm: has_word(words, "wasm"@),
    }
}

/// Whether `word` is among `words`.
pub fn contains_word(words: &Vec<String>, word: &str) -> (r: bool)
    ensures
        r == has_word(words@, word@),
{
    let mut i: usize = 0;
    while i < words.len()
        invariant
            i <= words.len(),
            forall|j: int| 0 <= j < i ==> (#[trigger] words@[j])@ != word@,
        decreases words.len() - i,
    {
        if same_text(words[i].as_str(), word) {
            return true;
        }
        i = i + 1;
    }
    false
}

/// Whether `word` names an option.
pub fn is_known_word(word: &str) -> (r: bool)
    ensures
        r == known_word(word@),
{
    same_text(word, "unstable") || same_text(word, "v8") || same_text(word, "fast") || same_text(
        word,
        "deferred",
    ) || same_text(word, "wasm")
}

impl Attributes {
    /// No option set.
    pub fn none() -> (a: Attributes)
        ensures
            a == (Attributes {
                is_unstable: false,
                is_v8: false,
                must_be_fast: false,
                deferred: false,
                is_wasm: false,
            }),
    {
        Attributes {
            is_unstable: false,
            is_v8: false,
            must_be_fast: false,
            deferred: false,
            is_wasm: false,
        }
    }

    /// Reads a list of option words; a word that names no option rejects
    /// the whole list.
    pub fn from_words(words: &Vec<String>) -> (r: Option<Attributes>)
        ensures
            r is Some == all_known(words@),
            r matches Some(a) ==> a == spec_from_words(words@),
    {
        let mut i: usize = 0;
        while i < words.len()
            invariant
                i <= words.len(),
                forall|j: int| 0 <= j < i ==> known_word((#[trigger] words@[j])@),
            decreases words.len() - i,
        {
            if !is_known_word(words[i].as_str()) {
                return None;
            }
            i = i + 1;
        }
        let is_wasm = contains_word(words, "wasm");
        Some(
            Attributes {
                is_unstable: contains_word(words, "unstable"),
                is_v8: contains_word(words, "v8"),
                must_be_fast: is_wasm || contains_word(words, "fast"),
                deferred: contains_word(words, "deferred"),
                is_wasm,
            },
        )
    }
}

} // verus!
