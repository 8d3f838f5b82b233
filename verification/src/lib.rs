//! The authenticated content-submission core of a Q&A service backend:
//! credential hashing, stateless session tokens, ownership-based
//! authorization, resilient moderation of submitted text, and the pipeline
//! that composes them in front of every question and answer write.

pub mod authentication;
pub mod credentials;
pub mod errors;
pub mod moderation;
pub mod numbers;
pub mod ownership;
pub mod pagination;
pub mod pipeline;
pub mod token;
pub mod types;

pub use authentication::{auth, login, register};
pub use credentials::{hashed_password, verify_password};
pub use errors::{APILayerError, Error, ModerationError, StorageError, TokenError, ValidationError};
pub use moderation::{classify_response, moderation_step, run_moderation, AttemptOutcome,
    ModerationState, RetryPolicy};
pub use ownership::{exists_with_owner, ownership_check};
pub use pagination::{extract_pagination, Pagination};
pub use pipeline::{apply_moderation, apply_ownership, finish_submission, moderation_texts,
    ownership_target, start_submission, PersistCommand, Stage, SubmissionRequest};
pub use token::{issue_token, verify_token};
pub use types::{
    Account, AccountId, Answer, AnswerId, Config, NewAnswer, NewQuestion, Question, QuestionId,
    Session,
};
