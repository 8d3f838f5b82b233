//! The request-scoped data the pipeline works on: accounts, sessions,
//! questions and answers, and the process-wide configuration value.

use vstd::prelude::*;

verus! {

/// Identifier of a registered account: an opaque positive integer assigned
/// by the storage collaborator, used as the authorization subject.
#[derive(Clone, Copy, Debug, PartialEq, Eq, Hash, Structural)]
pub struct AccountId(pub i32);

/// An account as the storage collaborator holds it. Before hashing,
/// `password` is the plaintext input; after `hashed_password` it holds the
/// encoded hash and only that form is ever handed to storage.
#[derive(Clone, Debug, PartialEq, Eq)]
pub struct Account {
    pub id: Option<AccountId>,
    pub email: String,
    pub password: String,
}

/// The authenticated identity context for one request, produced only by
/// successful verification of a session token.
#[derive(Clone, Copy, Debug, PartialEq, Eq, Structural)]
pub struct Session {
    pub account_id: AccountId,
}

/// Identifier of a stored question.
#[derive(Clone, Copy, Debug, PartialEq, Eq, Hash, Structural)]
pub struct QuestionId(pub i32);

/// A question as stored, with its assigned id.
#[derive(Clone, Debug, PartialEq, Eq)]
pub struct Question {
    pub id: QuestionId,
    pub title: String,
    pub content: String,
    pub tags: Option<Vec<String>>,
}

/// A question as submitted, before the store assigns an id.
#[derive(Clone, Debug, PartialEq, Eq)]
pub struct NewQuestion {
    pub title: String,
    pub content: String,
    pub tags: Option<Vec<String>>,
}

/// Identifier of a stored answer.
#[derive(Clone, Copy, Debug, PartialEq, Eq, Hash, Structural)]
pub struct AnswerId(pub i32);

/// An answer as stored, with its assigned id.
#[derive(Clone, Debug, PartialEq, Eq)]
pub struct Answer {
    pub id: AnswerId,
    pub content: String,
    pub question_id: QuestionId,
}

/// An answer as submitted, before the store assigns an id.
#[derive(Clone, Debug, PartialEq, Eq)]
pub struct NewAnswer {
    pub content: String,
    pub question_id: QuestionId,
}

/// Process-wide configuration, read-only after startup. The surrounding
/// program fills it from the command line and the environment.
#[derive(Clone, Debug, PartialEq, Eq)]
pub struct Config {
    pub log_level: String,
    pub port: u16,
    pub db_user: String,
    pub db_password: String,
    pub db_host: String,
    pub db_port: u16,
    pub db_name: String,
}

impl Session {
    pub fn new(account_id: AccountId) -> (r: Session)
        ensures
            r.account_id == account_id,
    {
        Session { account_id }
    }
}

} // verus!
