//! Laws of the dispatcher: where the walk ends, and what it never reads.

use vstd::prelude::*;
use crate::dispatch::{
    argument_at, run, run_from, step_at, Diagnostic, IntentView, OutcomeView, StepView,
};
use crate::token::TokenView;

verus! {

proof fn lemma_walk_ends_at_exit(
    before: Seq<TokenView>,
    behind: Seq<TokenView>,
    cursor: int,
)
    requires
        0 <= cursor <= before.len(),
    ensures
        run_from(before + seq![TokenView::ExitCommand] + behind, cursor) == run_from(
            before + seq![TokenView::ExitCommand],
            cursor,
        ),
    decreases before.len() - cursor,
{
    if cursor < before.len() {
        match step_at(before + seq![TokenView::ExitCommand], cursor) {
            StepView::Skip { next } => {
                lemma_walk_ends_at_exit(before, behind, next);
            },
            StepView::Perform { intent, next } => {
                lemma_walk_ends_at_exit(before, behind, next);
            },
            _ => {},
        }
    }
}

/// The walk never reads behind an `exit` that it reaches: whatever follows
/// the `exit`, the line comes to the same.
pub proof fn lemma_nothing_counts_behind_exit(before: Seq<TokenView>, behind: Seq<TokenView>)
    ensures
        run(before + seq![TokenView::ExitCommand] + behind) == run(
            before + seq![TokenView::ExitCommand],
        ),
{
    lemma_walk_ends_at_exit(before, behind, 0);
}

proof fn lemma_walk_ends_at_delete(
    before: Seq<TokenView>,
    operand: TokenView,
    behind: Seq<TokenView>,
    cursor: int,
)
    requires
        0 <= cursor <= before.len(),
    ensures
        run_from(before + seq![TokenView::DeleteCommand, operand] + behind, cursor) == run_from(
            before + seq![TokenView::DeleteCommand, operand],
            cursor,
        ),
    decreases before.len() - cursor,
{
    if cursor < before.len() {
        match step_at(before + seq![TokenView::DeleteCommand, operand], cursor) {
            StepView::Skip { next } => {
                lemma_walk_ends_at_delete(before, operand, behind, next);
            },
            StepView::Perform { intent, next } => {
                lemma_walk_ends_at_delete(before, operand, behind, next);
            },
            _ => {},
        }
    }
}

/// The walk never reads behind a `del` that it reaches and the one token
/// that follows it: whatever comes after the two, the line comes to the
/// same.
pub proof fn lemma_nothing_counts_behind_delete(
    before: Seq<TokenView>,
    operand: TokenView,
    behind: Seq<TokenView>,
)
    ensures
        run(before + seq![TokenView::DeleteCommand, operand] + behind) == run(
            before + seq![TokenView::DeleteCommand, operand],
        ),
{
    lemma_walk_ends_at_delete(before, operand, behind, 0);
}

/// An intent that ends the line: a deletion or the request to leave.
pub open spec fn ends_line(intent: IntentView) -> bool {
    intent is DeleteContact || intent is RequestExit
}

/// The shape of what a walk comes to.
///
/// It names no more intents than it has tokens to read. An intent that
/// ends the line stands last. The interpreter is asked to leave exactly
/// when the last intent is the request to leave, and then no diagnostic is
/// reported.
pub proof fn lemma_outcome_shape(tokens: Seq<TokenView>, cursor: int)
    requires
        0 <= cursor <= tokens.len(),
    ensures
        ({
            let outcome = run_from(tokens, cursor);
            &&& outcome.intents.len() <= tokens.len() - cursor
            &&& forall|k: int|
                0 <= k < outcome.intents.len() - 1 ==> !ends_line(#[trigger] outcome.intents[k])
            &&& outcome.should_exit <==> outcome.intents.len() > 0
                && outcome.intents.last() is RequestExit
            &&& outcome.should_exit ==> outcome.diagnostic is None
        }),
    decreases tokens.len() - cursor,
{
    match step_at(tokens, cursor) {
        StepView::Skip { next } => {
            lemma_outcome_shape(tokens, next);
        },
        StepView::Perform { intent, next } => {
            lemma_outcome_shape(tokens, next);
        },
        _ => {},
    }
}

/// The walk through the tokens behind `head` is the walk through these
/// tokens alone: it never looks back.
proof fn lemma_walk_never_looks_back(head: Seq<TokenView>, rest: Seq<TokenView>, cursor: int)
    requires
        0 <= cursor,
    ensures
        run_from(head + rest, head.len() + cursor) == run_from(rest, cursor),
    decreases rest.len() - cursor,
{
    match step_at(rest, cursor) {
        StepView::Skip { next } => {
            lemma_walk_never_looks_back(head, rest, next);
        },
        StepView::Perform { intent, next } => {
            lemma_walk_never_looks_back(head, rest, next);
        },
        _ => {},
    }
}

/// An outcome without intents: the line ends on `diagnostic`, if there is
/// one, and nobody is asked to leave.
pub open spec fn nothing_done(diagnostic: Option<Diagnostic>) -> OutcomeView {
    OutcomeView { intents: Seq::empty(), diagnostic, should_exit: false }
}

/// `help` at the head of a line shows the usage text, and the line goes
/// on behind it.
pub proof fn lemma_help_goes_on(rest: Seq<TokenView>)
    ensures
        run(seq![TokenView::Help] + rest) == run(rest).after(seq![IntentView::ShowHelp]),
{
    lemma_walk_never_looks_back(seq![TokenView::Help], rest, 0);
}

/// `ls` at the head of a line lists the contacts, and the line goes on
/// behind it.
pub proof fn lemma_list_goes_on(rest: Seq<TokenView>)
    ensures
        run(seq![TokenView::ListCommand] + rest) == run(rest).after(
            seq![IntentView::ListContacts],
        ),
{
    lemma_walk_never_looks_back(seq![TokenView::ListCommand], rest, 0);
}

/// An argument at the head of a line, which no command takes, asks for
/// nothing, and the line goes on behind it.
pub proof fn lemma_stray_argument_is_passed_over(text: Seq<char>, rest: Seq<TokenView>)
    ensures
        run(seq![TokenView::Argument(text)] + rest) == run(rest),
{
    lemma_walk_never_looks_back(seq![TokenView::Argument(text)], rest, 0);
}

/// `add` with two arguments behind it adds the contact once, and the line
/// goes on behind the two.
pub proof fn lemma_add_takes_two_arguments(
    name: Seq<char>,
    number: Seq<char>,
    rest: Seq<TokenView>,
)
    ensures
        run(
            seq![TokenView::AddCommand, TokenView::Argument(name), TokenView::Argument(number)]
                + rest,
        ) == run(rest).after(seq![IntentView::AddContact { name, number }]),
{
    let head = seq![
        TokenView::AddCommand,
        TokenView::Argument(name),
        TokenView::Argument(number),
    ];
    lemma_walk_never_looks_back(head, rest, 0);
}

/// `add` with anything but an argument behind it, or with nothing, adds
/// no contact: the line ends on a diagnostic.
pub proof fn lemma_add_without_arguments_is_rejected(rest: Seq<TokenView>)
    requires
        !argument_at(rest, 0),
    ensures
        run(seq![TokenView::AddCommand] + rest) == nothing_done(
            Some(Diagnostic::AddWithoutArguments),
        ),
{
}

/// `add` with one argument behind it, and then anything but an argument
/// or nothing, adds no contact: the line ends on a diagnostic.
pub proof fn lemma_add_with_one_argument_is_rejected(name: Seq<char>, rest: Seq<TokenView>)
    requires
        !argument_at(rest, 0),
    ensures
        run(seq![TokenView::AddCommand, TokenView::Argument(name)] + rest) == nothing_done(
            Some(Diagnostic::AddWithOneArgument),
        ),
{
}

/// `del` with an argument behind it deletes the contact once and ends the
/// line, whatever follows.
pub proof fn lemma_delete_ends_the_line(name: Seq<char>, rest: Seq<TokenView>)
    ensures
        run(seq![TokenView::DeleteCommand, TokenView::Argument(name)] + rest) == (OutcomeView {
            intents: seq![IntentView::DeleteContact { name }],
            diagnostic: None,
            should_exit: false,
        }),
{
}

/// `del` with anything but an argument behind it, or with nothing, deletes
/// nothing: the line ends on a diagnostic.
pub proof fn lemma_delete_without_argument_is_rejected(rest: Seq<TokenView>)
    requires
        !argument_at(rest, 0),
    ensures
        run(seq![TokenView::DeleteCommand] + rest) == nothing_done(
            Some(Diagnostic::DeleteWithoutArgument),
        ),
{
}

/// `exit` asks the interpreter to leave and ends the line, whatever
/// follows.
pub proof fn lemma_exit_ends_the_line(rest: Seq<TokenView>)
    ensures
        run(seq![TokenView::ExitCommand] + rest) == (OutcomeView {
            intents: seq![IntentView::RequestExit],
            diagnostic: None,
            should_exit: true,
        }),
{
}

/// A line without tokens asks for nothing.
pub proof fn lemma_empty_line_asks_for_nothing()
    ensures
        run(Seq::empty()) == nothing_done(None),
{
}

} // verus!
