//! Characters as the tokenizer sees them: quotes, separators, word
//! characters and the rest.
//!
//! Two things are taken from the standard library on trust: which
//! characters are alphanumeric, and that a string grows by the character
//! that is pushed onto it.

use vstd::prelude::*;

verus! {

/// Whether `c` is alphanumeric in the sense of the Unicode standard: a
/// letter or a number of any script. The tables behind it are long, so the
/// verdict has a name instead of a definition.
pub uninterp spec fn alphanumeric(c: char) -> bool;

/// `char::is_alphanumeric` depends on the character alone; its verdict is
/// what [`alphanumeric`] stands for. Nothing more is claimed of it.
pub assume_specification[ char::is_alphanumeric ](c: char) -> (verdict: bool)
    ensures
        verdict == alphanumeric(c),
;

/// `String::push` appends the character to the end of the string and
/// leaves the rest as it was.
pub assume_specification[ String::push ](text: &mut String, c: char)
    ensures
        final(text)@ == old(text)@.push(c),
;

/// What a character means to the tokenizer outside quotes.
#[derive(Debug, Clone, Copy, PartialEq, Eq, Structural)]
pub enum CharClass {
    /// The double quote, which opens and closes a quoted span.
    Quote,
    /// Space or newline, which end a word.
    Separator,
    /// An alphanumeric character, which belongs to a word.
    Word,
    /// Anything else: punctuation and the like, which is passed over.
    Other,
}

/// Space and newline separate words.
pub open spec fn is_separator(c: char) -> bool {
    c == ' ' || c == '\n'
}

/// The class of a character. The quote and the separators are told apart
/// first, so that no alphabet can claim them.
pub open spec fn class_of(c: char) -> CharClass {
    if c == '"' {
        CharClass::Quote
    } else if is_separator(c) {
        CharClass::Separator
    } else if alphanumeric(c) {
        CharClass::Word
    } else {
        CharClass::Other
    }
}

/// Classifies a character.
pub fn char_class(c: char) -> (class: CharClass)
    ensures
        class == class_of(c),
{
    if c == '"' {
        CharClass::Quote
    } else if c == ' ' || c == '\n' {
        CharClass::Separator
    } else if c.is_alphanumeric() {
        CharClass::Word
    } else {
        CharClass::Other
    }
}

} // verus!
