//! The submission pipeline that guards every question and answer write:
//! authenticate, then confirm ownership where a resource is targeted, then
//! moderate the submitted text, then — and only then — persist. Each stage
//! is a decision from the previous stage's value and one collaborator
//! answer to the next stage's value, so a rejection at any stage leaves no
//! later collaborator ever consulted and no partial mutation behind.

use vstd::prelude::*;
use crate::authentication::{auth, spec_auth};
use crate::errors::{Error, ModerationError, StorageError};
use crate::types::{AccountId, NewAnswer, NewQuestion, Question, Session};

verus! {

/// What a request asks the pipeline to do.
#[derive(Debug, PartialEq, Eq)]
pub enum SubmissionRequest {
    CreateQuestion(NewQuestion),
    UpdateQuestion(i32, Question),
    DeleteQuestion(i32),
    CreateAnswer(NewAnswer),
}

/// Where a request stands after the stage that produced it.
#[derive(Debug, PartialEq, Eq)]
pub enum Stage {
    /// Authenticated; the storage collaborator must now affirm that the
    /// session's account owns the targeted resource.
    NeedOwnership { session: Session, request: SubmissionRequest },
    /// Authenticated and, where needed, authorized; the submitted text
    /// must now pass moderation.
    NeedModeration { session: Session, request: SubmissionRequest },
    /// Everything checked; this is the one mutation to perform.
    Persist(PersistCommand),
}

/// The mutation handed to the storage collaborator once every check has
/// passed, with moderated text already in place.
#[derive(Debug, PartialEq, Eq)]
pub enum PersistCommand {
    AddQuestion { account_id: AccountId, question: NewQuestion },
    UpdateQuestion { account_id: AccountId, id: i32, question: Question },
    DeleteQuestion { account_id: AccountId, id: i32 },
    AddAnswer { account_id: AccountId, answer: NewAnswer },
}

/// Whether this request mutates an existing resource, so that ownership
/// must be confirmed before anything else is done with it. Creates —
/// questions and answers alike — need no check: they use the
/// authenticated account id directly as the new resource's owner.
pub open spec fn spec_needs_ownership(request: &SubmissionRequest) -> bool {
    match request {
        SubmissionRequest::CreateQuestion(_) => false,
        SubmissionRequest::UpdateQuestion(_, _) => true,
        SubmissionRequest::DeleteQuestion(_) => true,
        SubmissionRequest::CreateAnswer(_) => false,
    }
}

/// The resource id whose owner must be confirmed; meaningful only for
/// the requests that target one.
pub open spec fn spec_ownership_target(request: &SubmissionRequest) -> i32 {
    match request {
        SubmissionRequest::CreateQuestion(_) => 0,
        SubmissionRequest::UpdateQuestion(id, _) => *id,
        SubmissionRequest::DeleteQuestion(id) => *id,
        SubmissionRequest::CreateAnswer(_) => 0,
    }
}

/// The resource id to hand to the storage collaborator's
/// existence-and-owner lookup.
pub fn ownership_target(request: &SubmissionRequest) -> (r: i32)
    requires
        spec_needs_ownership(request),
    ensures
        r == spec_ownership_target(request),
{
    match request {
        SubmissionRequest::CreateQuestion(_) => 0,
        SubmissionRequest::UpdateQuestion(id, _) => *id,
        SubmissionRequest::DeleteQuestion(id) => *id,
        SubmissionRequest::CreateAnswer(_) => 0,
    }
}

/// Whether this request submits a title besides its content. Deleting
/// submits nothing and is ready to persist right after its checks.
pub open spec fn spec_has_title(request: &SubmissionRequest) -> bool {
    match request {
        SubmissionRequest::CreateQuestion(_) => true,
        SubmissionRequest::UpdateQuestion(_, _) => true,
        SubmissionRequest::DeleteQuestion(_) => false,
        SubmissionRequest::CreateAnswer(_) => false,
    }
}

/// The first stage: authentication against the `Authorization` header
/// value, before any store access or moderation. A missing, malformed or
/// expired token is one `Unauthenticated` rejection. An authenticated
/// create — question or answer — goes straight to moderation; an update
/// or delete must have its ownership confirmed first.
pub fn start_submission(
    key: &Vec<u8>,
    header: Option<&String>,
    now: u64,
    request: SubmissionRequest,
) -> (r: Result<Stage, Error>)
    requires
        key@.len() == 32,
    ensures
        ({
            let outcome = if header is None {
                spec_auth(key@, None::<Seq<char>>, now)
            } else {
                spec_auth(key@, Some(header->0@), now)
            };
            match outcome {
                Err(e) => r == Err::<Stage, Error>(e),
                Ok(session) => if spec_needs_ownership(&request) {
                    r == Ok::<Stage, Error>(Stage::NeedOwnership { session, request })
                } else {
                    r == Ok::<Stage, Error>(Stage::NeedModeration { session, request })
                },
            }
        }),
{
    let session = match auth(key, header, now) {
        Ok(s) => s,
        Err(e) => {
            return Err(e);
        },
    };
    match &request {
        SubmissionRequest::CreateQuestion(_) => Ok(Stage::NeedModeration { session, request }),
        SubmissionRequest::CreateAnswer(_) => Ok(Stage::NeedModeration { session, request }),
        _ => Ok(Stage::NeedOwnership { session, request }),
    }
}

/// The second stage: the storage collaborator's one-boolean answer about
/// ownership. `false` — whether the resource is missing or another
/// account's — rejects with `Unauthorized` and ends the request before
/// any moderation or mutation; `true` sends a delete straight to
/// persistence and everything else to moderation.
pub fn apply_ownership(stage: Stage, owned: bool) -> (r: Result<Stage, Error>)
    requires
        stage is NeedOwnership,
    ensures
        !owned ==> r == Err::<Stage, Error>(Error::Unauthorized),
        owned ==> (match stage {
            Stage::NeedOwnership { session, request } => match request {
                SubmissionRequest::DeleteQuestion(id) => r == Ok::<Stage, Error>(
                    Stage::Persist(
                        PersistCommand::DeleteQuestion { account_id: session.account_id, id },
                    ),
                ),
                _ => r == Ok::<Stage, Error>(Stage::NeedModeration { session, request }),
            },
            _ => true,
        }),
{
    if !owned {
        return Err(Error::Unauthorized);
    }
    match stage {
        Stage::NeedOwnership { session, request } => match request {
            SubmissionRequest::DeleteQuestion(id) => Ok(
                Stage::Persist(
                    PersistCommand::DeleteQuestion { account_id: session.account_id, id },
                ),
            ),
            other => Ok(Stage::NeedModeration { session, request: other }),
        },
        other => Ok(other),
    }
}

/// The texts this stage sends to moderation: the title where the request
/// has one, and the content. The two calls run as independent concurrent
/// requests outside; this only says what to send.
pub fn moderation_texts(stage: &Stage) -> (r: (Option<String>, Option<String>))
    requires
        stage is NeedModeration,
    ensures
        (match stage {
            Stage::NeedModeration { request, .. } => {
                &&& (match request {
                    SubmissionRequest::CreateQuestion(q) => (r.0 matches Some(t) && t@
                        == q.title@) && (r.1 matches Some(c) && c@ == q.content@),
                    SubmissionRequest::UpdateQuestion(_, q) => (r.0 matches Some(t) && t@
                        == q.title@) && (r.1 matches Some(c) && c@ == q.content@),
                    SubmissionRequest::CreateAnswer(a) => r.0 is None && (r.1 matches Some(c)
                        && c@ == a.content@),
                    SubmissionRequest::DeleteQuestion(_) => r.0 is None && r.1 is None,
                })
            },
            _ => true,
        }),
{
    match stage {
        Stage::NeedModeration { request, .. } => match request {
            SubmissionRequest::CreateQuestion(q) => (
                Some(q.title.clone()),
                Some(q.content.clone()),
            ),
            SubmissionRequest::UpdateQuestion(_, q) => (
                Some(q.title.clone()),
                Some(q.content.clone()),
            ),
            SubmissionRequest::CreateAnswer(a) => (None, Some(a.content.clone())),
            SubmissionRequest::DeleteQuestion(_) => (None, None),
        },
        _ => (None, None),
    }
}

/// The third stage: both moderation results come back and the persistence
/// command is built from the censored texts, never the originals. Either
/// failure fails the whole request with that failure — when both failed
/// the title's error is the one reported — and a success alongside a
/// failure is discarded, so no partially moderated value survives.
pub fn apply_moderation(
    stage: Stage,
    title_result: Option<Result<String, ModerationError>>,
    content_result: Result<String, ModerationError>,
) -> (r: Result<Stage, Error>)
    requires
        stage matches Stage::NeedModeration { request, .. } && (spec_has_title(&request)
            <==> title_result is Some) && request !is DeleteQuestion,
    ensures
        title_result matches Some(Err(e)) ==> r == Err::<Stage, Error>(Error::Moderation(e)),
        (title_result matches Some(Ok(_)) || title_result is None) ==> (match content_result {
            Err(e) => r == Err::<Stage, Error>(Error::Moderation(e)),
            Ok(censored_content) => (match stage {
                Stage::NeedModeration { session, request } => match request {
                    SubmissionRequest::CreateQuestion(q) => r == Ok::<Stage, Error>(
                        Stage::Persist(
                            PersistCommand::AddQuestion {
                                account_id: session.account_id,
                                question: NewQuestion {
                                    title: title_result->0->Ok_0,
                                    content: censored_content,
                                    tags: q.tags,
                                },
                            },
                        ),
                    ),
                    SubmissionRequest::UpdateQuestion(id, q) => r == Ok::<Stage, Error>(
                        Stage::Persist(
                            PersistCommand::UpdateQuestion {
                                account_id: session.account_id,
                                id,
                                question: Question {
                                    id: q.id,
                                    title: title_result->0->Ok_0,
                                    content: censored_content,
                                    tags: q.tags,
                                },
                            },
                        ),
                    ),
                    SubmissionRequest::CreateAnswer(a) => r == Ok::<Stage, Error>(
                        Stage::Persist(
                            PersistCommand::AddAnswer {
                                account_id: session.account_id,
                                answer: NewAnswer {
                                    content: censored_content,
                                    question_id: a.question_id,
                                },
                            },
                        ),
                    ),
                    SubmissionRequest::DeleteQuestion(_) => true,
                },
                _ => true,
            }),
        }),
{
    let title = match title_result {
        Some(Err(e)) => {
            return Err(Error::Moderation(e));
        },
        Some(Ok(t)) => Some(t),
        None => None,
    };
    let content = match content_result {
        Err(e) => {
            return Err(Error::Moderation(e));
        },
        Ok(c) => c,
    };
    match stage {
        Stage::NeedModeration { session, request } => match request {
            SubmissionRequest::CreateQuestion(q) => Ok(
                Stage::Persist(
                    PersistCommand::AddQuestion {
                        account_id: session.account_id,
                        question: NewQuestion {
                            title: match title {
                                Some(t) => t,
                                None => q.title,
                            },
                            content,
                            tags: q.tags,
                        },
                    },
                ),
            ),
            SubmissionRequest::UpdateQuestion(id, q) => Ok(
                Stage::Persist(
                    PersistCommand::UpdateQuestion {
                        account_id: session.account_id,
                        id,
                        question: Question {
                            id: q.id,
                            title: match title {
                                Some(t) => t,
                                None => q.title,
                            },
                            content,
                            tags: q.tags,
                        },
                    },
                ),
            ),
            SubmissionRequest::CreateAnswer(a) => Ok(
                Stage::Persist(
                    PersistCommand::AddAnswer {
                        account_id: session.account_id,
                        answer: NewAnswer { content, question_id: a.question_id },
                    },
                ),
            ),
            SubmissionRequest::DeleteQuestion(id) => Ok(
                Stage::Persist(
                    PersistCommand::DeleteQuestion { account_id: session.account_id, id },
                ),
            ),
        },
        other => Ok(other),
    }
}

/// The last stage: the storage collaborator's answer for the one
/// mutation, mapped into the pipeline's error kind. Persistence was only
/// ever attempted after authorization and moderation succeeded.
pub fn finish_submission<T>(persisted: Result<T, StorageError>) -> (r: Result<T, Error>)
    ensures
        match persisted {
            Ok(v) => r matches Ok(w) && w == v,
            Err(e) => r == Err::<T, Error>(Error::Storage(e)),
        },
{
    match persisted {
        Ok(v) => Ok(v),
        Err(e) => Err(Error::Storage(e)),
    }
}

} // verus!
