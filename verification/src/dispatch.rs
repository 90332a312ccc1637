//! The dispatcher: from the tokens of a line to the commands that the host
//! has to carry out.
//!
//! The dispatcher performs nothing itself. It walks the tokens with a
//! cursor and names, in order, what is to be done; the host does it.

use vstd::prelude::*;
use crate::token::{Token, TokenView};

verus! {

/// A command that the host is asked to carry out.
#[derive(Debug, PartialEq, Eq)]
pub enum Intent {
    /// Show the usage text.
    ShowHelp,
    /// Store a contact under `name` with `number`.
    AddContact { name: String, number: String },
    /// Remove the contact called `name`.
    DeleteContact { name: String },
    /// Show all contacts.
    ListContacts,
    /// Leave the interpreter.
    RequestExit,
}

/// The mathematical value of an [`Intent`].
pub enum IntentView {
    ShowHelp,
    AddContact { name: Seq<char>, number: Seq<char> },
    DeleteContact { name: Seq<char> },
    ListContacts,
    RequestExit,
}

impl View for Intent {
    type V = IntentView;

    open spec fn view(&self) -> IntentView {
        match self {
            Intent::ShowHelp => IntentView::ShowHelp,
            Intent::AddContact { name, number } => IntentView::AddContact {
                name: name@,
                number: number@,
            },
            Intent::DeleteContact { name } => IntentView::DeleteContact { name: name@ },
            Intent::ListContacts => IntentView::ListContacts,
            Intent::RequestExit => IntentView::RequestExit,
        }
    }
}

impl DeepView for Intent {
    type V = IntentView;

    open spec fn deep_view(&self) -> IntentView {
        self@
    }
}

impl Clone for Intent {
    fn clone(&self) -> (copy: Intent)
        ensures
            copy@ == self@,
    {
        match self {
            Intent::ShowHelp => Intent::ShowHelp,
            Intent::AddContact { name, number } => Intent::AddContact {
                name: name.clone(),
                number: number.clone(),
            },
            Intent::DeleteContact { name } => Intent::DeleteContact { name: name.clone() },
            Intent::ListContacts => Intent::ListContacts,
            Intent::RequestExit => Intent::RequestExit,
        }
    }
}

/// A syntax error: a command that lacks its arguments.
#[derive(Debug, Clone, Copy, PartialEq, Eq, Structural)]
pub enum Diagnostic {
    /// `add` is not followed by an argument.
    AddWithoutArguments,
    /// `add` is followed by one argument only.
    AddWithOneArgument,
    /// `del` is not followed by an argument.
    DeleteWithoutArgument,
}

impl Diagnostic {
    /// The text of the diagnostic.
    pub open spec fn text(self) -> Seq<char> {
        match self {
            Diagnostic::AddWithoutArguments => "expected arguments after add"@,
            Diagnostic::AddWithOneArgument => "expected 2 arguments after add"@,
            Diagnostic::DeleteWithoutArgument => "expected argument after delete"@,
        }
    }

    /// The text to show to the user.
    pub fn message(&self) -> (message: &'static str)
        ensures
            message@ == self.text(),
    {
        match self {
            Diagnostic::AddWithoutArguments => "expected arguments after add",
            Diagnostic::AddWithOneArgument => "expected 2 arguments after add",
            Diagnostic::DeleteWithoutArgument => "expected argument after delete",
        }
    }
}

/// What the token under the cursor asks for.
#[derive(Debug, PartialEq, Eq)]
pub enum Step {
    /// The cursor is behind the last token: the line is done.
    Done,
    /// The token asks for nothing; the walk goes on at `next`.
    Skip { next: usize },
    /// The host carries out `intent`; the walk goes on at `next`.
    Perform { intent: Intent, next: usize },
    /// The host carries out `intent`; the rest of the line is dropped.
    Finish { intent: Intent },
    /// The host reports `diagnostic`; the rest of the line is dropped.
    Reject { diagnostic: Diagnostic },
}

/// The mathematical value of a [`Step`].
pub enum StepView {
    Done,
    Skip { next: int },
    Perform { intent: IntentView, next: int },
    Finish { intent: IntentView },
    Reject { diagnostic: Diagnostic },
}

impl View for Step {
    type V = StepView;

    open spec fn view(&self) -> StepView {
        match self {
            Step::Done => StepView::Done,
            Step::Skip { next } => StepView::Skip { next: *next as int },
            Step::Perform { intent, next } => StepView::Perform {
                intent: intent@,
                next: *next as int,
            },
            Step::Finish { intent } => StepView::Finish { intent: intent@ },
            Step::Reject { diagnostic } => StepView::Reject { diagnostic: *diagnostic },
        }
    }
}

/// Whether an argument stands at position `at`.
pub open spec fn argument_at(tokens: Seq<TokenView>, at: int) -> bool {
    0 <= at < tokens.len() && tokens[at] is Argument
}

/// What the token at `cursor` asks for.
///
/// `help` and `ls` stand alone. `add` takes the two tokens behind it, which
/// must both be arguments. `del` takes the one token behind it, which must
/// be an argument, and ends the line. `exit` ends the line. An argument
/// that no command has taken is passed over.
pub open spec fn step_at(tokens: Seq<TokenView>, cursor: int) -> StepView {
    if cursor < 0 || cursor >= tokens.len() {
        StepView::Done
    } else {
        match tokens[cursor] {
            TokenView::Help => StepView::Perform { intent: IntentView::ShowHelp, next: cursor + 1 },
            TokenView::AddCommand => {
                if !argument_at(tokens, cursor + 1) {
                    StepView::Reject { diagnostic: Diagnostic::AddWithoutArguments }
                } else if !argument_at(tokens, cursor + 2) {
                    StepView::Reject { diagnostic: Diagnostic::AddWithOneArgument }
                } else {
                    StepView::Perform {
                        intent: IntentView::AddContact {
                            name: tokens[cursor + 1]->Argument_0,
                            number: tokens[cursor + 2]->Argument_0,
                        },
                        next: cursor + 3,
                    }
                }
            },
            TokenView::DeleteCommand => {
                if !argument_at(tokens, cursor + 1) {
                    StepView::Reject { diagnostic: Diagnostic::DeleteWithoutArgument }
                } else {
                    StepView::Finish {
                        intent: IntentView::DeleteContact { name: tokens[cursor + 1]->Argument_0 },
                    }
                }
            },
            TokenView::ListCommand => StepView::Perform {
                intent: IntentView::ListContacts,
                next: cursor + 1,
            },
            TokenView::ExitCommand => StepView::Finish { intent: IntentView::RequestExit },
            TokenView::Argument(_) => StepView::Skip { next: cursor + 1 },
        }
    }
}

/// The text of the argument at `at`, if an argument stands there.
fn argument(tokens: &[Token], at: usize) -> (text: Option<String>)
    ensures
        match text {
            Some(text) => tokens.deep_view()[at as int] == TokenView::Argument(text@)
                && argument_at(tokens.deep_view(), at as int),
            None => !argument_at(tokens.deep_view(), at as int),
        },
{
    if at < tokens.len() {
        match &tokens[at] {
            Token::Argument(text) => Some(text.clone()),
            _ => None,
        }
    } else {
        None
    }
}

/// Says what the token at `cursor` asks for, and where the walk goes on.
pub fn step(tokens: &[Token], cursor: usize) -> (step: Step)
    ensures
        step@ == step_at(tokens.deep_view(), cursor as int),
{
    if cursor >= tokens.len() {
        return Step::Done;
    }
    match &tokens[cursor] {
        Token::Help => Step::Perform { intent: Intent::ShowHelp, next: cursor + 1 },
        Token::AddCommand => {
            match argument(tokens, cursor + 1) {
                None => Step::Reject { diagnostic: Diagnostic::AddWithoutArguments },
                Some(name) => match argument(tokens, cursor + 2) {
                    None => Step::Reject { diagnostic: Diagnostic::AddWithOneArgument },
                    Some(number) => Step::Perform {
                        intent: Intent::AddContact { name, number },
                        next: cursor + 3,
                    },
                },
            }
        },
        Token::DeleteCommand => {
            match argument(tokens, cursor + 1) {
                None => Step::Reject { diagnostic: Diagnostic::DeleteWithoutArgument },
                Some(name) => Step::Finish { intent: Intent::DeleteContact { name } },
            }
        },
        Token::ListCommand => Step::Perform { intent: Intent::ListContacts, next: cursor + 1 },
        Token::ExitCommand => Step::Finish { intent: Intent::RequestExit },
        Token::Argument(_) => Step::Skip { next: cursor + 1 },
    }
}

/// What one line comes to: the commands to carry out, in order; the
/// diagnostic to report behind them, if the line broke off on a syntax
/// error; and whether the interpreter is asked to leave.
#[derive(Debug, PartialEq, Eq)]
pub struct Outcome {
    pub intents: Vec<Intent>,
    pub diagnostic: Option<Diagnostic>,
    pub should_exit: bool,
}

/// The mathematical value of an [`Outcome`].
pub struct OutcomeView {
    pub intents: Seq<IntentView>,
    pub diagnostic: Option<Diagnostic>,
    pub should_exit: bool,
}

impl View for Outcome {
    type V = OutcomeView;

    open spec fn view(&self) -> OutcomeView {
        OutcomeView {
            intents: self.intents.deep_view(),
            diagnostic: self.diagnostic,
            should_exit: self.should_exit,
        }
    }
}

impl OutcomeView {
    /// The outcome of a walk that carries out `intents` first and then
    /// comes to `self`.
    pub open spec fn after(self, intents: Seq<IntentView>) -> OutcomeView {
        OutcomeView {
            intents: intents + self.intents,
            diagnostic: self.diagnostic,
            should_exit: self.should_exit,
        }
    }
}

/// What the walk comes to from `cursor` on.
pub open spec fn run_from(tokens: Seq<TokenView>, cursor: int) -> OutcomeView
    decreases tokens.len() - cursor,
{
    match step_at(tokens, cursor) {
        StepView::Done => OutcomeView {
            intents: Seq::empty(),
            diagnostic: None,
            should_exit: false,
        },
        StepView::Skip { next } => run_from(tokens, next),
        StepView::Perform { intent, next } => run_from(tokens, next).after(seq![intent]),
        StepView::Finish { intent } => OutcomeView {
            intents: seq![intent],
            diagnostic: None,
            should_exit: intent is RequestExit,
        },
        StepView::Reject { diagnostic } => OutcomeView {
            intents: Seq::empty(),
            diagnostic: Some(diagnostic),
            should_exit: false,
        },
    }
}

/// What a line of tokens comes to: the walk from its first token.
pub open spec fn run(tokens: Seq<TokenView>) -> OutcomeView {
    run_from(tokens, 0)
}

/// Walks the tokens of one line and says what the line comes to.
///
/// The host carries out the intents in their order and stops at the first
/// that fails; if none fails it reports the diagnostic, if there is one.
pub fn dispatch(tokens: &[Token]) -> (outcome: Outcome)
    ensures
        outcome@ == run(tokens.deep_view()),
{
    let mut intents: Vec<Intent> = Vec::new();
    let mut cursor: usize = 0;
    loop
        invariant
            cursor <= tokens.len(),
            run(tokens.deep_view()) == run_from(tokens.deep_view(), cursor as int).after(
                intents.deep_view(),
            ),
        decreases tokens.len() - cursor,
    {
        let ghost done = intents.deep_view();
        match step(tokens, cursor) {
            Step::Done => {
                return Outcome { intents, diagnostic: None, should_exit: false };
            },
            Step::Skip { next } => {
                cursor = next;
            },
            Step::Perform { intent, next } => {
                let ghost rest = run_from(tokens.deep_view(), next as int);
                assert(done + (seq![intent@] + rest.intents) =~= done.push(intent@) + rest.intents);
                intents.push(intent);
                assert(intents.deep_view() =~= done.push(intent@));
                cursor = next;
            },
            Step::Finish { intent } => {
                let should_exit = match intent {
                    Intent::RequestExit => true,
                    _ => false,
                };
                intents.push(intent);
                assert(intents.deep_view() =~= done + seq![intent@]);
                return Outcome { intents, diagnostic: None, should_exit };
            },
            Step::Reject { diagnostic } => {
                return Outcome { intents, diagnostic: Some(diagnostic), should_exit: false };
            },
        }
    }
}

} // verus!
