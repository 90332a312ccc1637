//! Tokens: the lexical units of a command line.

use vstd::prelude::*;

verus! {

/// One classified lexical unit of a command line.
#[derive(Debug, PartialEq, Eq)]
pub enum Token {
    /// The keyword `help`.
    Help,
    /// The keyword `add`.
    AddCommand,
    /// The keyword `del`.
    DeleteCommand,
    /// The keyword `ls`.
    ListCommand,
    /// The keyword `exit`.
    ExitCommand,
    /// Any other word, and any word that was quoted.
    Argument(String),
}

/// The mathematical value of a [`Token`]: the text of an argument is a
/// sequence of characters.
pub enum TokenView {
    Help,
    AddCommand,
    DeleteCommand,
    ListCommand,
    ExitCommand,
    Argument(Seq<char>),
}

impl View for Token {
    type V = TokenView;

    open spec fn view(&self) -> TokenView {
        match self {
            Token::Help => TokenView::Help,
            Token::AddCommand => TokenView::AddCommand,
            Token::DeleteCommand => TokenView::DeleteCommand,
            Token::ListCommand => TokenView::ListCommand,
            Token::ExitCommand => TokenView::ExitCommand,
            Token::Argument(text) => TokenView::Argument(text@),
        }
    }
}

impl DeepView for Token {
    type V = TokenView;

    open spec fn deep_view(&self) -> TokenView {
        self@
    }
}

impl Clone for Token {
    fn clone(&self) -> (copy: Token)
        ensures
            copy@ == self@,
    {
        match self {
            Token::Help => Token::Help,
            Token::AddCommand => Token::AddCommand,
            Token::DeleteCommand => Token::DeleteCommand,
            Token::ListCommand => Token::ListCommand,
            Token::ExitCommand => Token::ExitCommand,
            Token::Argument(text) => Token::Argument(text.clone()),
        }
    }
}

/// The marker that a keyword stands for, if `text` is one of the five
/// keywords. Matching is exact and case-sensitive.
pub open spec fn keyword(text: Seq<char>) -> Option<TokenView> {
    if text == "help"@ {
        Some(TokenView::Help)
    } else if text == "add"@ {
        Some(TokenView::AddCommand)
    } else if text == "del"@ {
        Some(TokenView::DeleteCommand)
    } else if text == "ls"@ {
        Some(TokenView::ListCommand)
    } else if text == "exit"@ {
        Some(TokenView::ExitCommand)
    } else {
        None
    }
}

/// The token of an unquoted word: its keyword's marker, or an argument
/// that carries the word.
pub open spec fn classify_word(text: Seq<char>) -> TokenView {
    match keyword(text) {
        Some(marker) => marker,
        None => TokenView::Argument(text),
    }
}

/// Classifies an unquoted word against the keyword table.
pub fn classify(word: String) -> (token: Token)
    ensures
        token@ == classify_word(word@),
{
    if word == "help".to_owned() {
        Token::Help
    } else if word == "add".to_owned() {
        Token::AddCommand
    } else if word == "del".to_owned() {
        Token::DeleteCommand
    } else if word == "ls".to_owned() {
        Token::ListCommand
    } else if word == "exit".to_owned() {
        Token::ExitCommand
    } else {
        Token::Argument(word)
    }
}

} // verus!
