//! The tokenizer: from a line of text to its tokens.
//!
//! What the tokens of a line are is said twice. [`lex`] says it by the
//! places in the line: where quotes open and close, where words break, and
//! which characters are text. [`Scanner`] says it as a machine that is fed
//! one character at a time. [`tokenize`] runs the machine and is proved to
//! give what [`lex`] says.

use vstd::prelude::*;
use crate::chars::{char_class, class_of, is_separator, CharClass};
use crate::token::{classify, classify_word, Token, TokenView};

verus! {

/// Why a line has no tokens.
#[derive(Debug, Clone, Copy, PartialEq, Eq, Structural)]
pub enum LexError {
    /// A quote was opened and never closed.
    UnterminatedQuote,
}

impl LexError {
    /// The text of the error.
    pub open spec fn text(self) -> Seq<char> {
        match self {
            LexError::UnterminatedQuote => "unterminated quote"@,
        }
    }

    /// The words for the user.
    pub fn message(&self) -> (message: &'static str)
        ensures
            message@ == self.text(),
    {
        match self {
            LexError::UnterminatedQuote => "unterminated quote",
        }
    }
}

/// How many of the first `n` characters of `line` are quotes.
pub open spec fn quotes_before(line: Seq<char>, n: int) -> nat
    decreases n,
{
    if n <= 0 {
        0
    } else if line[n - 1] == '"' {
        quotes_before(line, n - 1) + 1
    } else {
        quotes_before(line, n - 1)
    }
}

/// Position `i` is inside quotes when an odd number of quotes stands
/// before it.
pub open spec fn in_quotes(line: Seq<char>, i: int) -> bool {
    quotes_before(line, i) % 2 == 1
}

/// The character at `i` ends a word: a separator outside quotes.
pub open spec fn is_break(line: Seq<char>, i: int) -> bool {
    is_separator(line[i]) && !in_quotes(line, i)
}

/// The character at `i` belongs to the text of its word: inside quotes
/// anything but the quote itself, outside quotes a word character.
pub open spec fn is_text(line: Seq<char>, i: int) -> bool {
    line[i] != '"' && (in_quotes(line, i) || class_of(line[i]) == CharClass::Word)
}

/// Where the word that reaches position `n` begins: behind the last break
/// before `n`, or at the start of the line.
pub open spec fn word_start(line: Seq<char>, n: int) -> int
    decreases n,
{
    if n <= 0 {
        0
    } else if is_break(line, n - 1) {
        n
    } else {
        word_start(line, n - 1)
    }
}

/// The text characters at the positions `from..to`, in their order.
pub open spec fn text_between(line: Seq<char>, from: int, to: int) -> Seq<char>
    decreases to - from,
{
    if to <= from {
        Seq::empty()
    } else if is_text(line, to - 1) {
        text_between(line, from, to - 1).push(line[to - 1])
    } else {
        text_between(line, from, to - 1)
    }
}

/// Whether a quote stands at one of the positions `from..to`.
pub open spec fn quote_between(line: Seq<char>, from: int, to: int) -> bool {
    quotes_before(line, to) > quotes_before(line, from)
}

/// The tokens that one word gives: none if it has no text, else one. A
/// word that holds a quote is an argument whatever it spells; any other
/// word is looked up in the keyword table.
pub open spec fn word_tokens(text: Seq<char>, quoted: bool) -> Seq<TokenView> {
    if text.len() == 0 {
        Seq::empty()
    } else if quoted {
        seq![TokenView::Argument(text)]
    } else {
        seq![classify_word(text)]
    }
}

/// The tokens of the word at the positions `from..to`.
pub open spec fn tokens_between(line: Seq<char>, from: int, to: int) -> Seq<TokenView> {
    word_tokens(text_between(line, from, to), quote_between(line, from, to))
}

/// The tokens of the words that a break has ended before position `n`.
pub open spec fn tokens_before(line: Seq<char>, n: int) -> Seq<TokenView>
    decreases n,
{
    if n <= 0 {
        Seq::empty()
    } else if is_break(line, n - 1) {
        tokens_before(line, n - 1) + tokens_between(line, word_start(line, n - 1), n - 1)
    } else {
        tokens_before(line, n - 1)
    }
}

/// The tokens of a line: those of the words that a break ends, then those
/// of the last word, which the end of the line ends. A line that ends
/// inside quotes has none.
pub open spec fn lex(line: Seq<char>) -> Result<Seq<TokenView>, LexError> {
    let end = line.len() as int;
    if in_quotes(line, end) {
        Err(LexError::UnterminatedQuote)
    } else {
        Ok(tokens_before(line, end) + tokens_between(line, word_start(line, end), end))
    }
}

/// A tokenizer that takes a line one character at a time.
pub struct Scanner {
    tokens: Vec<Token>,
    word: String,
    quoted: bool,
    open: bool,
}

/// The mathematical value of a [`Scanner`].
pub struct ScannerView {
    /// The tokens of the words that have ended.
    pub tokens: Seq<TokenView>,
    /// The text of the word in progress.
    pub word: Seq<char>,
    /// Whether the word in progress holds a quote.
    pub quoted: bool,
    /// Whether a quote is open.
    pub open: bool,
}

impl ScannerView {
    /// The scanner before the first character.
    pub open spec fn start() -> ScannerView {
        ScannerView { tokens: Seq::empty(), word: Seq::empty(), quoted: false, open: false }
    }

    /// The scanner after one more character, `c`, of class `class`.
    ///
    /// A quote opens or closes a quoted span and marks the word. While a
    /// quote is open every other character is text. Outside quotes a
    /// separator ends the word, a word character is text, and anything
    /// else is passed over.
    pub open spec fn feed(self, c: char, class: CharClass) -> ScannerView {
        if class == CharClass::Quote {
            ScannerView { quoted: true, open: !self.open, ..self }
        } else if self.open || class == CharClass::Word {
            ScannerView { word: self.word.push(c), ..self }
        } else if class == CharClass::Separator {
            ScannerView {
                tokens: self.tokens + word_tokens(self.word, self.quoted),
                word: Seq::empty(),
                quoted: false,
                open: false,
            }
        } else {
            self
        }
    }

    /// What the scanner gives at the end of the line.
    pub open spec fn finish(self) -> Result<Seq<TokenView>, LexError> {
        if self.open {
            Err(LexError::UnterminatedQuote)
        } else {
            Ok(self.tokens + word_tokens(self.word, self.quoted))
        }
    }

    /// The scanner that has taken the first `n` characters of `line`, told
    /// by the places in the line.
    pub open spec fn at(line: Seq<char>, n: int) -> ScannerView {
        ScannerView {
            tokens: tokens_before(line, n),
            word: text_between(line, word_start(line, n), n),
            quoted: quote_between(line, word_start(line, n), n),
            open: in_quotes(line, n),
        }
    }
}

impl View for Scanner {
    type V = ScannerView;

    closed spec fn view(&self) -> ScannerView {
        ScannerView {
            tokens: self.tokens.deep_view(),
            word: self.word@,
            quoted: self.quoted,
            open: self.open,
        }
    }
}

/// A word begins at or before the position that it reaches, and the quotes
/// before its beginning are among the quotes before that position.
pub proof fn lemma_word_start_bounds(line: Seq<char>, n: int)
    requires
        0 <= n,
    ensures
        0 <= word_start(line, n) <= n,
        quotes_before(line, word_start(line, n)) <= quotes_before(line, n),
    decreases n,
{
    if n > 0 && !is_break(line, n - 1) {
        lemma_word_start_bounds(line, n - 1);
    }
}

/// Feeding the scanner the character at position `n` takes it from the
/// first `n` characters of the line to the first `n + 1`.
pub proof fn lemma_feed_follows_line(line: Seq<char>, n: int)
    requires
        0 <= n < line.len(),
    ensures
        ScannerView::at(line, n).feed(line[n], class_of(line[n])) == ScannerView::at(line, n + 1),
{
    lemma_word_start_bounds(line, n);
}

/// The scanner that has taken a whole line gives the tokens of the line.
pub proof fn lemma_finish_is_lex(line: Seq<char>)
    ensures
        ScannerView::at(line, line.len() as int).finish() == lex(line),
{
}

impl Scanner {
    /// A scanner that has taken nothing yet.
    pub fn new() -> (scanner: Scanner)
        ensures
            scanner@ == ScannerView::start(),
    {
        let scanner = Scanner {
            tokens: Vec::new(),
            word: String::new(),
            quoted: false,
            open: false,
        };
        assert(scanner.tokens.deep_view() =~= Seq::<TokenView>::empty());
        scanner
    }

    /// Takes one character, whose class the caller has found.
    pub fn feed(&mut self, c: char, class: CharClass)
        ensures
            final(self)@ == old(self)@.feed(c, class),
    {
        match class {
            CharClass::Quote => {
                self.quoted = true;
                self.open = !self.open;
            },
            CharClass::Word => {
                self.word.push(c);
            },
            CharClass::Separator => {
                if self.open {
                    self.word.push(c);
                } else {
                    self.end_word();
                }
            },
            CharClass::Other => {
                if self.open {
                    self.word.push(c);
                }
            },
        }
    }

    /// Ends the word in progress: appends its token, if it has one.
    fn end_word(&mut self)
        ensures
            final(self).tokens.deep_view() == old(self).tokens.deep_view() + word_tokens(
                old(self).word@,
                old(self).quoted,
            ),
            final(self).word@ == Seq::<char>::empty(),
            !final(self).quoted,
            final(self).open == old(self).open,
    {
        let mut word = String::new();
        std::mem::swap(&mut word, &mut self.word);
        if !word.as_str().is_empty() {
            let token = if self.quoted {
                Token::Argument(word)
            } else {
                classify(word)
            };
            self.tokens.push(token);
        }
        self.quoted = false;
    }

    /// Ends the line and hands out its tokens.
    pub fn finish(self) -> (result: Result<Vec<Token>, LexError>)
        ensures
            match result {
                Ok(tokens) => self@.finish() == Ok::<Seq<TokenView>, LexError>(tokens.deep_view()),
                Err(error) => self@.finish() == Err::<Seq<TokenView>, LexError>(error),
            },
    {
        let mut scanner = self;
        if scanner.open {
            return Err(LexError::UnterminatedQuote);
        }
        scanner.end_word();
        Ok(scanner.tokens)
    }
}

/// Splits a line into its tokens, in the order in which they stand.
pub fn tokenize(line: &str) -> (result: Result<Vec<Token>, LexError>)
    ensures
        match result {
            Ok(tokens) => lex(line@) == Ok::<Seq<TokenView>, LexError>(tokens.deep_view()),
            Err(error) => lex(line@) == Err::<Seq<TokenView>, LexError>(error),
        },
{
    let mut scanner = Scanner::new();
    for c in it: line.chars()
        invariant
            it.seq() == line@,
            scanner@ == ScannerView::at(line@, it.index() as int),
    {
        proof {
            lemma_feed_follows_line(line@, it.index() as int);
        }
        scanner.feed(c, char_class(c));
    }
    proof {
        lemma_finish_is_lex(line@);
    }
    scanner.finish()
}

} // verus!
