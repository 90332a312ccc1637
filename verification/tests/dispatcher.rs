use contact_book::dispatch::{dispatch, step, Diagnostic, Intent, Outcome, Step};
use contact_book::lexer::tokenize;
use contact_book::token::Token;

fn arg(text: &str) -> Token {
    Token::Argument(text.to_string())
}

fn add(name: &str, number: &str) -> Intent {
    Intent::AddContact { name: name.to_string(), number: number.to_string() }
}

fn delete(name: &str) -> Intent {
    Intent::DeleteContact { name: name.to_string() }
}

fn outcome(intents: Vec<Intent>, diagnostic: Option<Diagnostic>, should_exit: bool) -> Outcome {
    Outcome { intents, diagnostic, should_exit }
}

#[test]
fn add_without_arguments_is_reported() {
    let result = dispatch(&[Token::AddCommand]);
    assert_eq!(result, outcome(vec![], Some(Diagnostic::AddWithoutArguments), false));
    assert_eq!(result.diagnostic.unwrap().message(), "expected arguments after add");
}

#[test]
fn add_with_two_arguments_adds_once() {
    let result = dispatch(&[Token::AddCommand, arg("Cedric"), arg("0676767")]);
    assert_eq!(result, outcome(vec![add("Cedric", "0676767")], None, false));
}

#[test]
fn list_then_exit() {
    let result = dispatch(&[Token::ListCommand, Token::ExitCommand]);
    assert_eq!(result, outcome(vec![Intent::ListContacts, Intent::RequestExit], None, true));
}

#[test]
fn delete_ends_the_line() {
    let alone = dispatch(&[Token::DeleteCommand, arg("Bob")]);
    assert_eq!(alone, outcome(vec![delete("Bob")], None, false));
    let followed = dispatch(&[Token::DeleteCommand, arg("Bob"), Token::ListCommand]);
    assert_eq!(followed, outcome(vec![delete("Bob")], None, false));
    assert!(!followed.intents.contains(&Intent::ListContacts));
}

#[test]
fn add_with_one_argument_is_reported() {
    let result = dispatch(&[Token::AddCommand, arg("Cedric")]);
    assert_eq!(result, outcome(vec![], Some(Diagnostic::AddWithOneArgument), false));
    assert_eq!(result.diagnostic.unwrap().message(), "expected 2 arguments after add");
}

#[test]
fn add_followed_by_a_keyword_is_reported() {
    assert_eq!(
        dispatch(&[Token::AddCommand, Token::ListCommand, arg("1")]),
        outcome(vec![], Some(Diagnostic::AddWithoutArguments), false)
    );
    assert_eq!(
        dispatch(&[Token::AddCommand, arg("Cedric"), Token::ExitCommand]),
        outcome(vec![], Some(Diagnostic::AddWithOneArgument), false)
    );
}

#[test]
fn delete_without_argument_is_reported() {
    let result = dispatch(&[Token::DeleteCommand]);
    assert_eq!(result, outcome(vec![], Some(Diagnostic::DeleteWithoutArgument), false));
    assert_eq!(result.diagnostic.unwrap().message(), "expected argument after delete");
    assert_eq!(
        dispatch(&[Token::DeleteCommand, Token::Help]),
        outcome(vec![], Some(Diagnostic::DeleteWithoutArgument), false)
    );
}

#[test]
fn syntax_error_drops_the_rest_of_the_line() {
    assert_eq!(
        dispatch(&[Token::Help, Token::AddCommand, Token::ListCommand, Token::ExitCommand]),
        outcome(vec![Intent::ShowHelp], Some(Diagnostic::AddWithoutArguments), false)
    );
}

#[test]
fn line_goes_on_behind_help_list_and_add() {
    let tokens = [
        Token::Help,
        Token::AddCommand,
        arg("Ann"),
        arg("1"),
        Token::ListCommand,
        Token::AddCommand,
        arg("Bob"),
        arg("2"),
        Token::Help,
    ];
    assert_eq!(
        dispatch(&tokens),
        outcome(
            vec![
                Intent::ShowHelp,
                add("Ann", "1"),
                Intent::ListContacts,
                add("Bob", "2"),
                Intent::ShowHelp,
            ],
            None,
            false
        )
    );
}

#[test]
fn stray_arguments_are_passed_over() {
    assert_eq!(dispatch(&[arg("stray")]), outcome(vec![], None, false));
    assert_eq!(
        dispatch(&[arg("a"), Token::ListCommand, arg("b"), arg("c"), Token::Help]),
        outcome(vec![Intent::ListContacts, Intent::ShowHelp], None, false)
    );
}

#[test]
fn empty_line_asks_for_nothing() {
    assert_eq!(dispatch(&[]), outcome(vec![], None, false));
}

#[test]
fn nothing_counts_behind_exit() {
    let short = [Token::Help, Token::ExitCommand];
    let long = [Token::Help, Token::ExitCommand, Token::AddCommand, Token::DeleteCommand];
    assert_eq!(dispatch(&long), dispatch(&short));
    assert_eq!(dispatch(&long), outcome(vec![Intent::ShowHelp, Intent::RequestExit], None, true));
}

#[test]
fn nothing_counts_behind_delete_and_its_operand() {
    let short = [Token::ListCommand, Token::DeleteCommand, Token::Help];
    let long = [Token::ListCommand, Token::DeleteCommand, Token::Help, Token::ExitCommand];
    assert_eq!(dispatch(&long), dispatch(&short));
    let short = [Token::ListCommand, Token::DeleteCommand, arg("Bob")];
    let long = [Token::ListCommand, Token::DeleteCommand, arg("Bob"), Token::ExitCommand];
    assert_eq!(dispatch(&long), dispatch(&short));
    assert_eq!(dispatch(&long), outcome(vec![Intent::ListContacts, delete("Bob")], None, false));
}

#[test]
fn exit_is_asked_only_by_the_last_intent() {
    let lines: [&[Token]; 4] = [
        &[Token::ExitCommand],
        &[Token::Help, Token::ListCommand],
        &[Token::DeleteCommand, arg("x"), Token::ExitCommand],
        &[Token::AddCommand, Token::ExitCommand],
    ];
    for line in lines {
        let result = dispatch(line);
        assert_eq!(result.should_exit, result.intents.last() == Some(&Intent::RequestExit));
        assert!(!(result.should_exit && result.diagnostic.is_some()));
        assert!(result.intents.len() <= line.len());
    }
}

#[test]
fn step_says_where_the_walk_goes_on() {
    let tokens = [
        Token::Help,
        Token::AddCommand,
        arg("Ann"),
        arg("1"),
        arg("stray"),
        Token::ListCommand,
        Token::DeleteCommand,
        arg("Ann"),
        Token::ExitCommand,
    ];
    assert_eq!(step(&tokens, 0), Step::Perform { intent: Intent::ShowHelp, next: 1 });
    assert_eq!(step(&tokens, 1), Step::Perform { intent: add("Ann", "1"), next: 4 });
    assert_eq!(step(&tokens, 2), Step::Skip { next: 3 });
    assert_eq!(step(&tokens, 4), Step::Skip { next: 5 });
    assert_eq!(step(&tokens, 5), Step::Perform { intent: Intent::ListContacts, next: 6 });
    assert_eq!(step(&tokens, 6), Step::Finish { intent: delete("Ann") });
    assert_eq!(step(&tokens, 8), Step::Finish { intent: Intent::RequestExit });
    assert_eq!(step(&tokens, 9), Step::Done);
    assert_eq!(step(&tokens, usize::MAX), Step::Done);
}

#[test]
fn step_reports_missing_arguments() {
    let tokens = [Token::AddCommand, arg("Ann"), Token::DeleteCommand];
    assert_eq!(step(&tokens, 0), Step::Reject { diagnostic: Diagnostic::AddWithOneArgument });
    assert_eq!(step(&tokens, 2), Step::Reject { diagnostic: Diagnostic::DeleteWithoutArgument });
    assert_eq!(
        step(&[Token::AddCommand], 0),
        Step::Reject { diagnostic: Diagnostic::AddWithoutArguments }
    );
}

#[test]
fn a_host_that_follows_the_steps_does_what_dispatch_says() {
    let tokens = tokenize("help add Ann 1 stray ls add \"del\" 2 del Ann exit").unwrap();
    let mut intents = Vec::new();
    let mut diagnostic = None;
    let mut cursor = 0;
    loop {
        match step(&tokens, cursor) {
            Step::Done => break,
            Step::Skip { next } => cursor = next,
            Step::Perform { intent, next } => {
                intents.push(intent);
                cursor = next;
            }
            Step::Finish { intent } => {
                intents.push(intent);
                break;
            }
            Step::Reject { diagnostic: found } => {
                diagnostic = Some(found);
                break;
            }
        }
    }
    let result = dispatch(&tokens);
    assert_eq!(result.intents, intents);
    assert_eq!(result.diagnostic, diagnostic);
    assert_eq!(
        result,
        outcome(
            vec![
                Intent::ShowHelp,
                add("Ann", "1"),
                Intent::ListContacts,
                add("del", "2"),
                delete("Ann"),
            ],
            None,
            false
        )
    );
}

#[test]
fn a_line_is_tokenized_and_dispatched() {
    let tokens = tokenize("add \"John Smith\" 12345 ls exit ls").unwrap();
    assert_eq!(
        dispatch(&tokens),
        outcome(
            vec![add("John Smith", "12345"), Intent::ListContacts, Intent::RequestExit],
            None,
            true
        )
    );
}

#[test]
fn intent_clone_is_equal() {
    let intents = vec![
        Intent::ShowHelp,
        add("Ann", "1"),
        delete("Ann"),
        Intent::ListContacts,
        Intent::RequestExit,
    ];
    let copies: Vec<Intent> = intents.iter().map(|intent| intent.clone()).collect();
    assert_eq!(copies, intents);
}

#[test]
fn help_and_list_go_on_behind_themselves() {
    let rest = [Token::AddCommand, arg("Ann"), arg("1"), Token::ExitCommand];
    let behind = dispatch(&rest);
    let heads = [(Token::Help, Intent::ShowHelp), (Token::ListCommand, Intent::ListContacts)];
    for (head, intent) in heads {
        let mut line = vec![head];
        line.extend(rest.iter().map(|token| token.clone()));
        let mut intents = vec![intent];
        intents.extend(behind.intents.iter().map(|intent| intent.clone()));
        assert_eq!(dispatch(&line), outcome(intents, behind.diagnostic, behind.should_exit));
    }
}
