//! Laws of the tokenizer: what [`lex`] comes to on lines of a simple kind,
//! and how the tokens of a line are made of the tokens of its parts.

use vstd::prelude::*;
use crate::chars::{alphanumeric, class_of, is_separator, CharClass};
use crate::lexer::{
    is_break, lemma_feed_follows_line, lemma_finish_is_lex, lemma_word_start_bounds, lex,
    quotes_before, text_between, tokens_before, word_start, word_tokens, LexError, ScannerView,
};
use crate::token::{classify_word, TokenView};

verus! {

/// No character of the line is a quote.
pub open spec fn quote_free(line: Seq<char>) -> bool {
    forall|i: int| 0 <= i < line.len() ==> line[i] != '"'
}

/// Every character of the line is a word character.
pub open spec fn all_word_chars(line: Seq<char>) -> bool {
    forall|i: int| 0 <= i < line.len() ==> class_of(#[trigger] line[i]) == CharClass::Word
}

/// No character of the line is a quote or a word character: the line is
/// made of separators, punctuation and the like.
pub open spec fn wordless(line: Seq<char>) -> bool {
    forall|i: int|
        0 <= i < line.len() ==> class_of(#[trigger] line[i]) == CharClass::Separator
            || class_of(line[i]) == CharClass::Other
}

/// The fields of a line: its runs of characters that do not separate,
/// each as long as it can be, in their order. A run of separating
/// characters of any length parts two fields; at either end of the line
/// it parts nothing. What separates is for `separates` to say.
pub open spec fn fields(line: Seq<char>, separates: spec_fn(char) -> bool) -> Seq<Seq<char>>
    decreases line.len(),
{
    if line.len() == 0 {
        Seq::empty()
    } else {
        let before = fields(line.drop_last(), separates);
        let c = line.last();
        if separates(c) {
            before
        } else if line.len() >= 2 && !separates(line[line.len() - 2]) {
            before.drop_last().push(before.last().push(c))
        } else {
            before.push(seq![c])
        }
    }
}

/// `whitespace` picks, among the characters of the line, the separators
/// and nothing else.
pub open spec fn separators_are_the_whitespace(
    line: Seq<char>,
    whitespace: spec_fn(char) -> bool,
) -> bool {
    forall|i: int| 0 <= i < line.len() ==> whitespace(#[trigger] line[i]) == is_separator(line[i])
}

/// What is left of a field when all but its alphanumeric characters are
/// dropped.
pub open spec fn alphanumerics(field: Seq<char>) -> Seq<char> {
    field.filter(|c: char| alphanumeric(c))
}

/// The tokens of a sequence of unquoted fields: each field that keeps an
/// alphanumeric character gives one token, found in the keyword table by
/// the characters that it keeps.
pub open spec fn field_tokens(fields: Seq<Seq<char>>) -> Seq<TokenView>
    decreases fields.len(),
{
    if fields.len() == 0 {
        Seq::empty()
    } else {
        field_tokens(fields.drop_last()) + word_tokens(alphanumerics(fields.last()), false)
    }
}

/// No token of the sequence is an argument without text.
pub open spec fn arguments_have_text(tokens: Seq<TokenView>) -> bool {
    forall|k: int|
        0 <= k < tokens.len() ==> (#[trigger] tokens[k] matches TokenView::Argument(text)
            ==> text.len() > 0)
}

proof fn lemma_no_quotes_before(line: Seq<char>, n: int)
    requires
        quote_free(line),
        0 <= n <= line.len(),
    ensures
        quotes_before(line, n) == 0,
    decreases n,
{
    if n > 0 {
        lemma_no_quotes_before(line, n - 1);
    }
}

/// No break stands between the beginning of a word and the position that
/// the word reaches.
proof fn lemma_no_break_in_word(line: Seq<char>, n: int, k: int)
    requires
        0 <= n,
        word_start(line, n) <= k < n,
    ensures
        !is_break(line, k),
    decreases n,
{
    if n > 0 && !is_break(line, n - 1) && k < n - 1 {
        lemma_no_break_in_word(line, n - 1, k);
    }
}

/// Outside quotes, the text of a stretch without separators is what the
/// stretch keeps of alphanumeric characters.
proof fn lemma_text_is_alphanumerics(line: Seq<char>, from: int, to: int)
    requires
        quote_free(line),
        0 <= from <= to <= line.len(),
        forall|k: int| from <= k < to ==> !is_separator(line[k]),
    ensures
        text_between(line, from, to) == alphanumerics(line.subrange(from, to)),
    decreases to - from,
{
    reveal(Seq::filter);
    if to > from {
        lemma_text_is_alphanumerics(line, from, to - 1);
        lemma_no_quotes_before(line, to - 1);
        assert(line.subrange(from, to).drop_last() =~= line.subrange(from, to - 1));
    }
}

/// How the fields of the first `n` characters of a line without quotes
/// stand to the words that the tokenizer has seen in them: the field in
/// progress is the word in progress, and the fields before it have given
/// the tokens.
proof fn lemma_fields_follow_words(line: Seq<char>, whitespace: spec_fn(char) -> bool, n: int)
    requires
        quote_free(line),
        separators_are_the_whitespace(line, whitespace),
        0 <= n <= line.len(),
    ensures
        0 <= word_start(line, n) <= n,
        forall|k: int| word_start(line, n) <= k < n ==> !is_separator(line[k]),
        word_start(line, n) < n ==> {
            let found = fields(line.take(n), whitespace);
            &&& found.len() > 0
            &&& found.last() == line.subrange(word_start(line, n), n)
            &&& tokens_before(line, n) == field_tokens(found.drop_last())
        },
        word_start(line, n) == n ==> tokens_before(line, n) == field_tokens(
            fields(line.take(n), whitespace),
        ),
    decreases n,
{
    lemma_word_start_bounds(line, n);
    assert forall|k: int| word_start(line, n) <= k < n implies !is_separator(line[k]) by {
        lemma_no_break_in_word(line, n, k);
        lemma_no_quotes_before(line, k);
    }
    if n > 0 {
        let m = n - 1;
        let start = word_start(line, m);
        let found = fields(line.take(m), whitespace);
        lemma_fields_follow_words(line, whitespace, m);
        lemma_no_quotes_before(line, m);
        lemma_no_quotes_before(line, start);
        assert(line.take(n).drop_last() =~= line.take(m));
        if is_separator(line[m]) {
            if start < m {
                lemma_text_is_alphanumerics(line, start, m);
            }
        } else if m >= 1 && !is_separator(line[m - 1]) {
            lemma_word_start_bounds(line, m - 1);
            assert(found.drop_last().push(found.last().push(line[m])).drop_last()
                =~= found.drop_last());
        } else {
            if m >= 1 {
                lemma_no_quotes_before(line, m - 1);
            }
            assert(found.push(seq![line[m]]).drop_last() =~= found);
        }
    }
}

/// On a line without quotes the tokenizer splits at the runs of whitespace
/// and nowhere else, drops from each field what is not alphanumeric, and
/// finds each field that is left with something in the keyword table.
///
/// Whitespace is any set of characters that holds, of the characters of
/// the line, the space and the newline and no other: the tokenizer does
/// not split at a tab.
pub proof fn lemma_unquoted_line_splits_at_whitespace(
    line: Seq<char>,
    whitespace: spec_fn(char) -> bool,
)
    requires
        quote_free(line),
        separators_are_the_whitespace(line, whitespace),
    ensures
        lex(line) == Ok::<Seq<TokenView>, LexError>(field_tokens(fields(line, whitespace))),
{
    let end = line.len() as int;
    let start = word_start(line, end);
    lemma_fields_follow_words(line, whitespace, end);
    lemma_no_quotes_before(line, end);
    lemma_no_quotes_before(line, start);
    assert(line.take(end) =~= line);
    if start < end {
        lemma_text_is_alphanumerics(line, start, end);
    }
}

/// On a line without quotes the tokens are those of its fields, parted by
/// space and newline.
pub proof fn lemma_unquoted_line_splits_into_fields(line: Seq<char>)
    requires
        quote_free(line),
    ensures
        lex(line) == Ok::<Seq<TokenView>, LexError>(
            field_tokens(fields(line, |c: char| is_separator(c))),
        ),
{
    lemma_unquoted_line_splits_at_whitespace(line, |c: char| is_separator(c));
}

/// In a line without quotes and word characters no stretch has text, and
/// no word has given a token.
proof fn lemma_wordless_stretch(line: Seq<char>, from: int, to: int)
    requires
        wordless(line),
        0 <= from <= to <= line.len(),
    ensures
        quotes_before(line, to) == 0,
        text_between(line, from, to) == Seq::<char>::empty(),
        tokens_before(line, to) == Seq::<TokenView>::empty(),
    decreases to,
{
    if to > 0 {
        lemma_word_start_bounds(line, to - 1);
        lemma_wordless_stretch(line, word_start(line, to - 1), to - 1);
        if from < to {
            lemma_wordless_stretch(line, from, to - 1);
        }
    }
}

/// A line that holds neither a quote nor a word character has no tokens.
pub proof fn lemma_line_without_words_is_empty(line: Seq<char>)
    requires
        wordless(line),
    ensures
        lex(line) == Ok::<Seq<TokenView>, LexError>(Seq::empty()),
{
    let end = line.len() as int;
    lemma_word_start_bounds(line, end);
    lemma_wordless_stretch(line, word_start(line, end), end);
}

proof fn lemma_arguments_before_have_text(line: Seq<char>, n: int)
    requires
        0 <= n,
    ensures
        arguments_have_text(tokens_before(line, n)),
    decreases n,
{
    if n > 0 {
        lemma_arguments_before_have_text(line, n - 1);
    }
}

/// The tokenizer never gives an argument without text: a word that has no
/// text gives no token at all.
pub proof fn lemma_arguments_have_text(line: Seq<char>)
    ensures
        lex(line) matches Ok(tokens) ==> arguments_have_text(tokens),
{
    lemma_arguments_before_have_text(line, line.len() as int);
}

/// Where the tokenizer stands behind the first `k` characters of a run of
/// word characters.
proof fn lemma_inside_word(word: Seq<char>, k: int)
    requires
        all_word_chars(word),
        0 <= k <= word.len(),
    ensures
        quotes_before(word, k) == 0,
        word_start(word, k) == 0,
        tokens_before(word, k) == Seq::<TokenView>::empty(),
        text_between(word, 0, k) == word.take(k),
    decreases k,
{
    if k > 0 {
        lemma_inside_word(word, k - 1);
    }
}

/// A run of word characters that stands alone is one token, found in the
/// keyword table: a keyword gives its marker, any other word an argument.
pub proof fn lemma_plain_word_is_looked_up(word: Seq<char>)
    requires
        all_word_chars(word),
        word.len() > 0,
    ensures
        lex(word) == Ok::<Seq<TokenView>, LexError>(seq![classify_word(word)]),
{
    lemma_inside_word(word, word.len() as int);
    assert(word.take(word.len() as int) =~= word);
}

/// Where the tokenizer stands behind an opening quote and the first `k`
/// characters of a text without quotes.
proof fn lemma_inside_quotes(text: Seq<char>, k: int)
    requires
        quote_free(text),
        0 <= k <= text.len(),
    ensures
        ({
            let line = seq!['"'] + text + seq!['"'];
            &&& quotes_before(line, k + 1) == 1
            &&& word_start(line, k + 1) == 0
            &&& tokens_before(line, k + 1) == Seq::<TokenView>::empty()
            &&& text_between(line, 0, k + 1) == text.take(k)
        }),
    decreases k,
{
    let line = seq!['"'] + text + seq!['"'];
    if k > 0 {
        lemma_inside_quotes(text, k - 1);
    } else {
        assert(quotes_before(line, 0) == 0);
        assert(word_start(line, 0) == 0);
        assert(tokens_before(line, 0) == Seq::<TokenView>::empty());
        assert(text_between(line, 0, 0) =~= text.take(0));
    }
}

/// A text between two quotes is one argument, character for character,
/// whatever it holds but a quote: separators and punctuation stay, and a
/// keyword is not looked up.
pub proof fn lemma_quoted_text_is_one_argument(text: Seq<char>)
    requires
        quote_free(text),
        text.len() > 0,
    ensures
        lex(seq!['"'] + text + seq!['"']) == Ok::<Seq<TokenView>, LexError>(
            seq![TokenView::Argument(text)],
        ),
{
    lemma_inside_quotes(text, text.len() as int);
    assert(text.take(text.len() as int) =~= text);
}

/// What the tokenizer has made of the first `n` characters of a line
/// depends on these characters alone.
proof fn lemma_scan_reads_what_it_has_seen(one: Seq<char>, other: Seq<char>, n: int)
    requires
        0 <= n <= one.len(),
        n <= other.len(),
        forall|i: int| 0 <= i < n ==> one[i] == other[i],
    ensures
        ScannerView::at(one, n) == ScannerView::at(other, n),
    decreases n,
{
    if n > 0 {
        lemma_scan_reads_what_it_has_seen(one, other, n - 1);
        lemma_feed_follows_line(one, n - 1);
        lemma_feed_follows_line(other, n - 1);
    }
}

/// The scanner `state` with the tokens `earlier` put before its own.
spec fn with_earlier(earlier: Seq<TokenView>, state: ScannerView) -> ScannerView {
    ScannerView { tokens: earlier + state.tokens, ..state }
}

/// Behind a separator outside quotes the tokenizer goes through the rest
/// of the line as through a line of its own, and keeps what it had.
proof fn lemma_scan_starts_anew(left: Seq<char>, separator: char, right: Seq<char>, k: int)
    requires
        is_separator(separator),
        lex(left) is Ok,
        0 <= k <= right.len(),
    ensures
        ScannerView::at(left + seq![separator] + right, left.len() + 1 + k) == with_earlier(
            lex(left)->Ok_0,
            ScannerView::at(right, k),
        ),
    decreases k,
{
    let line = left + seq![separator] + right;
    let earlier = lex(left)->Ok_0;
    if k > 0 {
        lemma_scan_starts_anew(left, separator, right, k - 1);
        lemma_feed_follows_line(line, left.len() + k);
        lemma_feed_follows_line(right, k - 1);
        let before = ScannerView::at(right, k - 1);
        let fed = before.feed(right[k - 1], class_of(right[k - 1]));
        let joined = with_earlier(earlier, before).feed(right[k - 1], class_of(right[k - 1]));
        assert(joined.tokens =~= earlier + fed.tokens);
    } else {
        lemma_scan_reads_what_it_has_seen(line, left, left.len() as int);
        lemma_feed_follows_line(line, left.len() as int);
        lemma_finish_is_lex(left);
    }
}

/// A separator outside quotes parts a line in two: the tokens of the line
/// are those of what stands before the separator, then those of what
/// stands behind it; and the line fails where what stands behind it
/// fails.
pub proof fn lemma_separator_parts_the_line(left: Seq<char>, separator: char, right: Seq<char>)
    requires
        is_separator(separator),
        lex(left) is Ok,
    ensures
        lex(left + seq![separator] + right) == match lex(right) {
            Ok(tokens) => Ok::<Seq<TokenView>, LexError>(lex(left)->Ok_0 + tokens),
            Err(error) => Err::<Seq<TokenView>, LexError>(error),
        },
{
    let earlier = lex(left)->Ok_0;
    let state = ScannerView::at(right, right.len() as int);
    lemma_scan_starts_anew(left, separator, right, right.len() as int);
    lemma_finish_is_lex(left + seq![separator] + right);
    lemma_finish_is_lex(right);
    if !state.open {
        assert((earlier + state.tokens) + word_tokens(state.word, state.quoted) =~= earlier + (
        state.tokens + word_tokens(state.word, state.quoted)));
    }
}

} // verus!
