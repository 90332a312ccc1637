//! The contact book's rules: what to do with what the store has found.
//!
//! The host reads and writes the store; this module decides what a
//! command comes to once the store has answered.

use vstd::prelude::*;

verus! {

/// What an `add` comes to.
#[derive(Debug, Clone, Copy, PartialEq, Eq, Structural)]
pub enum AddDecision {
    /// No contact bears the name: the new one is stored.
    Insert,
    /// A contact bears the name: nothing is stored.
    AlreadyExists,
}

/// Decides an `add` from the ids of the contacts that bear the name.
pub fn decide_add(same_name: &[u32]) -> (decision: AddDecision)
    ensures
        decision == if same_name@.len() == 0 {
            AddDecision::Insert
        } else {
            AddDecision::AlreadyExists
        },
{
    if same_name.len() == 0 {
        AddDecision::Insert
    } else {
        AddDecision::AlreadyExists
    }
}

/// What a `del` comes to.
#[derive(Debug, Clone, Copy, PartialEq, Eq, Structural)]
pub enum DeleteDecision {
    /// The contact with this id is removed.
    Remove { contact_id: u32 },
    /// The user has no contact of the name.
    NotFound,
}

/// Decides a `del` from the ids of the user's contacts that bear the
/// name: the first of them is removed.
pub fn decide_delete(same_name: &[u32]) -> (decision: DeleteDecision)
    ensures
        decision == if same_name@.len() == 0 {
            DeleteDecision::NotFound
        } else {
            DeleteDecision::Remove { contact_id: same_name@[0] }
        },
{
    if same_name.len() == 0 {
        DeleteDecision::NotFound
    } else {
        DeleteDecision::Remove { contact_id: same_name[0] }
    }
}

/// What an `ls` comes to.
#[derive(Debug, Clone, Copy, PartialEq, Eq, Structural)]
pub enum ListDecision {
    /// The contacts are shown in the order of the store.
    Show,
    /// There is nothing to show, which is said.
    NoContacts,
}

/// Decides an `ls` from the number of the user's contacts.
pub fn decide_list(contacts: usize) -> (decision: ListDecision)
    ensures
        decision == if contacts == 0 {
            ListDecision::NoContacts
        } else {
            ListDecision::Show
        },
{
    if contacts == 0 {
        ListDecision::NoContacts
    } else {
        ListDecision::Show
    }
}

} // verus!
