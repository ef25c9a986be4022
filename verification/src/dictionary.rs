//! The vocabulary of a loaded model.

use crate::string::{fit, from_native, is_portable, lenient_text, portable, received};
use crate::FastText;
use libc::{c_int, c_uint};
use vstd::prelude::*;
use vstd::string::StringSliceAdditionalSpecFns;
use vstd::utf8::*;

verus! {

/// The room that is offered to the engine for one word, in bytes.
pub const MAX_WORD_LEN: usize = 256;

/// The position that a lookup gives: the one that the engine found, where the
/// word could be handed over as it is and the position lies in the vocabulary.
pub open spec fn index_of(word: Seq<u8>, found: int, words: int) -> Option<int> {
    if portable(word) && 0 <= found < words {
        Some(found)
    } else {
        None
    }
}

/// The word that a position gives: for a position in the vocabulary, the text
/// of the bytes that the engine reported, unless that text is empty.
pub open spec fn word_at(index: int, buf: Seq<u8>, len: nat, words: int) -> Option<Seq<char>> {
    if 0 <= index < words && lenient_text(received(buf, len)).len() > 0 {
        Some(lenient_text(received(buf, len)))
    } else {
        None
    }
}

/// A read-only view of the vocabulary of the model that it borrows.
#[derive(Debug)]
pub struct Dictionary<'a> {
    model: &'a FastText,
    words: c_int,
}

impl<'a> Dictionary<'a> {
    /// The size of the vocabulary, as the engine gave it.
    pub closed spec fn words(&self) -> int {
        self.words as int
    }

    #[verifier::type_invariant]
    spec fn populated(&self) -> bool {
        self.words > 0 && self.model.ready()
    }

    pub(crate) fn new(model: &'a FastText, words: c_int) -> (dict: Dictionary<'a>)
        requires
            model.ready(),
            words > 0,
        ensures
            dict.words() == words,
    {
        Dictionary { model, words }
    }

    /// The size of the vocabulary. A model that can be read knows at least one
    /// word.
    pub fn words_count(&self) -> (n: c_int)
        ensures
            n == self.words(),
            n > 0,
    {
        proof {
            use_type_invariant(self);
        }
        self.words
    }

    /// The position of `word`, given what the engine `found` for it: a
    /// position, or a negative number for a word that it does not know.
    pub fn word_index(&self, word: &str, found: c_int) -> (r: Option<i64>)
        ensures
            match r {
                Some(i) => index_of(word.spec_bytes(), found as int, self.words()) == Some(
                    i as int,
                ),
                None => index_of(word.spec_bytes(), found as int, self.words()) is None,
            },
            !(0 <= found < self.words()) ==> r is None,
    {
        if 0 <= found && found < self.words && is_portable(word.as_bytes()) {
            Some(found as i64)
        } else {
            None
        }
    }

    /// The position to ask the engine for, where `index` lies in the
    /// vocabulary.
    pub fn position(&self, index: i64) -> (r: Option<c_int>)
        ensures
            r is Some <==> 0 <= index < self.words(),
            r matches Some(i) ==> i == index,
    {
        if 0 <= index && index < self.words as i64 {
            Some(index as c_int)
        } else {
            None
        }
    }

    /// A fresh buffer for the engine to write one word into.
    pub fn word_buffer() -> (buf: Vec<u8>)
        ensures
            buf@ == Seq::new(MAX_WORD_LEN as nat, |i: int| 0u8),
    {
        vec![0u8; MAX_WORD_LEN]
    }

    /// The word at `index`, given the buffer that the engine wrote to and the
    /// number of bytes that it reported. Only that number says where the word
    /// ends: a zero byte within it is part of the word.
    pub fn get_word(&self, index: i64, buf: Vec<u8>, len: c_uint) -> (r: Option<String>)
        ensures
            match r {
                Some(word) => word_at(index as int, buf@, len as nat, self.words()) == Some(
                    word@,
                ),
                None => word_at(index as int, buf@, len as nat, self.words()) is None,
            },
            !(0 <= index < self.words()) ==> r is None,
            r matches Some(word) ==> word@.len() > 0,
    {
        if index < 0 || index >= self.words as i64 {
            return None;
        }
        let bytes = fit(buf, len as usize);
        let word = from_native(bytes.as_slice());
        if !word.is_empty() {
            Some(word.to_owned())
        } else {
            None
        }
    }
}

/// Looking a word up and reading its position back gives the word again,
/// where the engine found the word at a position of the vocabulary and
/// reports for that position the bytes that it was asked about.
pub proof fn lemma_lookup_round_trip(word: Seq<char>, found: int, words: int, buf: Seq<u8>, len: nat)
    requires
        word.len() > 0,
        portable(encode_utf8(word)),
        0 <= found < words,
        received(buf, len) == encode_utf8(word),
    ensures
        index_of(encode_utf8(word), found, words) == Some(found),
        word_at(found, buf, len, words) == Some(word),
{
    encode_utf8_valid_utf8(word);
    encode_utf8_decode_utf8(word);
}

} // verus!
