use contact_book::contacts::{
    decide_add, decide_delete, decide_list, AddDecision, DeleteDecision, ListDecision,
};

#[test]
fn new_name_is_inserted() {
    assert_eq!(decide_add(&[]), AddDecision::Insert);
}

#[test]
fn known_name_is_not_added_again() {
    assert_eq!(decide_add(&[4]), AddDecision::AlreadyExists);
    assert_eq!(decide_add(&[4, 9]), AddDecision::AlreadyExists);
}

#[test]
fn missing_contact_is_not_found() {
    assert_eq!(decide_delete(&[]), DeleteDecision::NotFound);
}

#[test]
fn first_match_is_removed() {
    assert_eq!(decide_delete(&[4]), DeleteDecision::Remove { contact_id: 4 });
    assert_eq!(decide_delete(&[9, 4]), DeleteDecision::Remove { contact_id: 9 });
}

#[test]
fn empty_book_has_nothing_to_show() {
    assert_eq!(decide_list(0), ListDecision::NoContacts);
}

#[test]
fn contacts_are_shown() {
    assert_eq!(decide_list(1), ListDecision::Show);
    assert_eq!(decide_list(usize::MAX), ListDecision::Show);
}
