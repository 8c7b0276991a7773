//! Recording an attendance entry from a request.

use vstd::prelude::*;
use crate::db::{db_error_text, entry_has_id, some_entry_has_uuid, same_tables, DbConnection, DbError};
use crate::interactions::entries::EntriesInteractor;
use crate::models::{action_name, Action, Entry};
use crate::support::{concat, decimal, lower_of, lowercase, owned, to_decimal};

verus! {

/// A request to record an entry: the person and the action as typed.
pub struct APIEntry {
    pub person_id: String,
    pub action: String,
}

/// The action named by a lower-case text, in English or Spanish.
pub open spec fn action_from_lower(l: Seq<char>) -> Option<Action> {
    if l == "entrada"@ || l == "enter"@ {
        Some(Action::Enter)
    } else if l == "salida"@ || l == "exit"@ {
        Some(Action::Exit)
    } else {
        None
    }
}

/// The action named by the lower-case text `lower`.
pub fn action_from_lowercase(lower: &str) -> (r: Option<Action>)
    ensures
        r == action_from_lower(lower@),
{
    let l = owned(lower);
    if l == owned("entrada") || l == owned("enter") {
        Some(Action::Enter)
    } else if l == owned("salida") || l == owned("exit") {
        Some(Action::Exit)
    } else {
        None
    }
}

/// The action named by `text`, whatever its case.
pub fn parse_action(text: &str) -> (r: Option<Action>)
    ensures
        r == action_from_lower(lower_of(text@)),
{
    let lower = lowercase(text);
    action_from_lowercase(lower.as_str())
}

/// How recording an entry ended.
#[derive(Debug, Clone, Copy, PartialEq, Eq, Structural)]
pub enum CreateEntryReply {
    InvalidAction,
    Created(usize),
    CreateFailed(DbError),
}

pub open spec fn create_entry_json(r: CreateEntryReply) -> Seq<char> {
    match r {
        CreateEntryReply::InvalidAction => "{\"status\": \"error\", \"message\": \"Invalid  Action\"}"@,
        CreateEntryReply::Created(n) => decimal(n as nat),
        CreateEntryReply::CreateFailed(e) => "{\"status\": \"error\", \"message\": \"Failed to create entry: "@
            + db_error_text(e) + "\"}"@,
    }
}

impl CreateEntryReply {
    /// The JSON answer: the number of rows written, or an error object.
    pub fn body(&self) -> (r: String)
        ensures
            r@ == create_entry_json(*self),
    {
        match self {
            CreateEntryReply::InvalidAction => owned(
                "{\"status\": \"error\", \"message\": \"Invalid  Action\"}",
            ),
            CreateEntryReply::Created(n) => to_decimal(*n as u64),
            CreateEntryReply::CreateFailed(e) => {
                let mut s = concat(
                    "{\"status\": \"error\", \"message\": \"Failed to create entry: ",
                    e.to_string().as_str(),
                );
                s.append("\"}");
                s
            },
        }
    }
}

/// Records an entry, stamped now, for the person and action of `entry`.
pub fn create_entry(conn: &mut DbConnection, entry: &APIEntry) -> (r: CreateEntryReply)
    ensures
        match action_from_lower(lower_of(entry.action@)) {
            None => r == CreateEntryReply::InvalidAction && same_tables(final(conn), old(conn)),
            Some(a) => match r {
                CreateEntryReply::Created(n) => {
                    let e = final(conn).entries@.last();
                    &&& n == 1
                    &&& final(conn).entries@ == old(conn).entries@.push(e)
                    &&& e.person_id@ == entry.person_id@
                    &&& e.action@ == action_name(a)
                    &&& final(conn).persons@ == old(conn).persons@
                    &&& final(conn).permissions@ == old(conn).permissions@
                    &&& final(conn).tokens@ == old(conn).tokens@
                },
                CreateEntryReply::CreateFailed(e) => e == DbError::UniqueViolation && same_tables(
                    final(conn),
                    old(conn),
                ) && some_entry_has_uuid(old(conn).entries@),
                CreateEntryReply::InvalidAction => false,
            },
        },
{
    let action = match parse_action(entry.action.as_str()) {
        Some(a) => a,
        None => {
            return CreateEntryReply::InvalidAction;
        },
    };
    let new_entry = Entry::new(entry.person_id.as_str(), action);
    let ghost entries0 = conn.entries@;
    match EntriesInteractor::new(conn, &new_entry) {
        Ok(n) => CreateEntryReply::Created(n),
        Err(e) => {
            proof {
                let w = choose|w: int| 0 <= w < entries0.len() && entry_has_id(new_entry.id@)(#[trigger] entries0[w]);
                assert(entries0[w].id@.len() == 36);
            }
            CreateEntryReply::CreateFailed(e)
        },
    }
}

} // verus!
