//! The resilient moderation client, as decisions: classification of one
//! provider response, and the retry state machine that drives repeated
//! attempts. The surrounding program performs each HTTP attempt and feeds
//! its outcome back; everything decided about the outcomes is here and
//! verified.
//!
//! Per call the machine moves `Sending -> {Success | Retrying -> Sending |
//! ClientError | ServerError | TransportError}`: transient outcomes — a
//! transport failure or a 5xx answer — are retried up to the policy's cap,
//! anything else is terminal at once.

use vstd::prelude::*;
use crate::errors::{APILayerError, ModerationError};

verus! {

/// The retry policy handed to the client at construction: how many
/// retries beyond the first attempt transient failures are worth, and the
/// base delay the exponential backoff between them grows from.
#[derive(Clone, Copy, Debug, PartialEq, Eq, Structural)]
pub struct RetryPolicy {
    pub max_retries: u32,
    pub base_delay_millis: u64,
}

/// The backoff factor before re-sending after `attempt` spent attempts:
/// doubles with each attempt, capped at two to the eighth.
pub open spec fn spec_backoff_factor(attempt: u32) -> u64 {
    if attempt >= 8 {
        256u64
    } else if attempt == 7 {
        128u64
    } else if attempt == 6 {
        64u64
    } else if attempt == 5 {
        32u64
    } else if attempt == 4 {
        16u64
    } else if attempt == 3 {
        8u64
    } else if attempt == 2 {
        4u64
    } else {
        2u64
    }
}

/// How long to wait before the next attempt when `attempt` attempts are
/// already spent: nothing before the first, then the base delay doubling
/// with each retry, capped so the factor and the product stay bounded.
pub open spec fn spec_backoff_delay_millis(base: u64, attempt: u32) -> u64 {
    if attempt == 0 {
        0u64
    } else if base > u64::MAX / spec_backoff_factor(attempt) {
        u64::MAX
    } else {
        (base * spec_backoff_factor(attempt)) as u64
    }
}

impl RetryPolicy {
    /// The policy the service runs with: three retries beyond the first
    /// attempt, backing off from a tenth of a second.
    pub fn standard() -> (r: RetryPolicy)
        ensures
            r.max_retries == 3,
            r.base_delay_millis == 100,
    {
        RetryPolicy { max_retries: 3, base_delay_millis: 100 }
    }

    /// The backoff delay, in milliseconds, to sleep before re-sending
    /// once `attempt` attempts are spent.
    pub fn backoff_delay_millis(&self, attempt: u32) -> (d: u64)
        ensures
            d == spec_backoff_delay_millis(self.base_delay_millis, attempt),
    {
        if attempt == 0 {
            return 0;
        }
        let factor: u64 = if attempt >= 8 {
            256
        } else if attempt == 7 {
            128
        } else if attempt == 6 {
            64
        } else if attempt == 5 {
            32
        } else if attempt == 4 {
            16
        } else if attempt == 3 {
            8
        } else if attempt == 2 {
            4
        } else {
            2
        };
        if self.base_delay_millis > u64::MAX / factor {
            u64::MAX
        } else {
            proof {
                assert(self.base_delay_millis * factor <= u64::MAX) by (nonlinear_arith)
                    requires
                        factor >= 1,
                        self.base_delay_millis <= u64::MAX / factor,
                ;
            }
            self.base_delay_millis * factor
        }
    }
}

/// What one HTTP attempt against the provider came to: a response with
/// its status and body text, or no response at all.
#[derive(Debug, Clone, PartialEq, Eq)]
pub enum AttemptOutcome {
    Response { status: u16, body: String },
    Transport,
}

/// One moderation call's progress: still sending (with the number of
/// attempts already spent), or finished with the classified result.
#[derive(Debug, PartialEq, Eq)]
pub enum ModerationState {
    Sending { attempt: u32 },
    Finished(Result<String, ModerationError>),
}

/// The mathematical shadow of an attempt outcome.
pub enum OutcomeView {
    Response(u16, Seq<char>),
    Transport,
}

/// The mathematical shadow of a finished call.
pub enum ModResultView {
    Success(Seq<char>),
    Client(u16, Seq<char>),
    Server(u16, Seq<char>),
    Transport,
}

/// The mathematical shadow of the call's progress.
pub enum ModStateView {
    Sending(u32),
    Finished(ModResultView),
}

pub open spec fn view_outcome(o: &AttemptOutcome) -> OutcomeView {
    match o {
        AttemptOutcome::Response { status, body } => OutcomeView::Response(*status, body@),
        AttemptOutcome::Transport => OutcomeView::Transport,
    }
}

pub open spec fn view_mod_result(r: Result<String, ModerationError>) -> ModResultView {
    match r {
        Ok(s) => ModResultView::Success(s@),
        Err(ModerationError::ClientError(e)) => ModResultView::Client(e.status, e.message@),
        Err(ModerationError::ServerError(e)) => ModResultView::Server(e.status, e.message@),
        Err(ModerationError::TransportError) => ModResultView::Transport,
    }
}

pub open spec fn view_mod_state(s: &ModerationState) -> ModStateView {
    match s {
        ModerationState::Sending { attempt } => ModStateView::Sending(*attempt),
        ModerationState::Finished(r) => ModStateView::Finished(view_mod_result(*r)),
    }
}

/// The `censored_content` field of the provider's success body, when the
/// body is JSON carrying one; read through `serde_json`.
pub uninterp spec fn censored_content_of(body: Seq<char>) -> Option<Seq<char>>;

/// The `message` field of the provider's error body, when the body is
/// JSON carrying one; read through `serde_json`.
pub uninterp spec fn api_message_of(body: Seq<char>) -> Option<Seq<char>>;

/// Relies on `serde_json::from_str` and `Value::get`: deterministically
/// reads the `censored_content` string field out of a JSON body, if the
/// body parses and carries one.
#[verifier::external_body]
fn extract_censored_content(body: &str) -> (r: Option<String>)
    ensures
        match r {
            Some(c) => censored_content_of(body@) == Some(c@),
            None => censored_content_of(body@) is None,
        },
{
    let v: serde_json::Value = match serde_json::from_str(body) {
        Ok(v) => v,
        Err(_) => return None,
    };
    match v.get("censored_content").and_then(|c| c.as_str()) {
        Some(s) => Some(s.to_owned()),
        None => None,
    }
}

/// Relies on `serde_json::from_str` and `Value::get`: deterministically
/// reads the `message` string field out of a JSON body, if the body
/// parses and carries one.
#[verifier::external_body]
fn extract_api_message(body: &str) -> (r: Option<String>)
    ensures
        match r {
            Some(m) => api_message_of(body@) == Some(m@),
            None => api_message_of(body@) is None,
        },
{
    let v: serde_json::Value = match serde_json::from_str(body) {
        Ok(v) => v,
        Err(_) => return None,
    };
    match v.get("message").and_then(|c| c.as_str()) {
        Some(s) => Some(s.to_owned()),
        None => None,
    }
}

/// The error body's message, or empty when the body carries none: the
/// error still reports the numeric status either way.
pub open spec fn spec_message_or_empty(body: Seq<char>) -> Seq<char> {
    match api_message_of(body) {
        Some(m) => m,
        None => Seq::empty(),
    }
}

/// The terminal classification of one outcome: a status below 400 is
/// success with the body's censored text (an unreadable success body is a
/// transport-class failure); 4xx is the caller's problem; 5xx is the
/// provider's; no response at all is a transport failure.
pub open spec fn spec_classify(o: OutcomeView) -> ModResultView {
    match o {
        OutcomeView::Response(status, body) => if status < 400 {
            match censored_content_of(body) {
                Some(c) => ModResultView::Success(c),
                None => ModResultView::Transport,
            }
        } else if status < 500 {
            ModResultView::Client(status, spec_message_or_empty(body))
        } else {
            ModResultView::Server(status, spec_message_or_empty(body))
        },
        OutcomeView::Transport => ModResultView::Transport,
    }
}

/// Whether an outcome is transient and worth retrying: a transport
/// failure or a 5xx answer, never a 4xx.
pub open spec fn spec_retriable(o: OutcomeView) -> bool {
    match o {
        OutcomeView::Response(status, _) => status >= 500,
        OutcomeView::Transport => true,
    }
}

/// One move of the retry machine: a transient outcome within the retry
/// budget sends again, anything else finishes with the outcome's
/// classification.
pub open spec fn spec_step(max_retries: u32, attempt: u32, o: OutcomeView) -> ModStateView {
    if spec_retriable(o) && attempt < max_retries {
        ModStateView::Sending((attempt + 1) as u32)
    } else {
        ModStateView::Finished(spec_classify(o))
    }
}

/// Classifies one terminal provider response.
pub fn classify_response(status: u16, body: &String) -> (r: Result<String, ModerationError>)
    ensures
        view_mod_result(r) == spec_classify(OutcomeView::Response(status, body@)),
{
    if status < 400 {
        match extract_censored_content(body.as_str()) {
            Some(c) => Ok(c),
            None => Err(ModerationError::TransportError),
        }
    } else {
        let message = match extract_api_message(body.as_str()) {
            Some(m) => m,
            None => String::new(),
        };
        let e = APILayerError { status, message };
        if status < 500 {
            Err(ModerationError::ClientError(e))
        } else {
            Err(ModerationError::ServerError(e))
        }
    }
}

/// Drives the retry machine by one observed outcome.
pub fn moderation_step(policy: &RetryPolicy, state: &ModerationState, outcome: &AttemptOutcome) -> (r:
    ModerationState)
    requires
        state is Sending,
    ensures
        view_mod_state(&r) == spec_step(
            policy.max_retries,
            state->attempt,
            view_outcome(outcome),
        ),
{
    let attempt = match state {
        ModerationState::Sending { attempt } => *attempt,
        ModerationState::Finished(_) => 0,
    };
    match outcome {
        AttemptOutcome::Transport => {
            if attempt < policy.max_retries {
                ModerationState::Sending { attempt: attempt + 1 }
            } else {
                ModerationState::Finished(Err(ModerationError::TransportError))
            }
        },
        AttemptOutcome::Response { status, body } => {
            if *status >= 500 && attempt < policy.max_retries {
                ModerationState::Sending { attempt: attempt + 1 }
            } else {
                ModerationState::Finished(classify_response(*status, body))
            }
        },
    }
}

/// Where the machine stands after a run of outcomes, starting from
/// `attempt` attempts already spent: outcomes are consumed in order until
/// one finishes the call; leftovers are never looked at.
pub open spec fn spec_run(max_retries: u32, attempt: u32, outcomes: Seq<OutcomeView>) -> ModStateView
    decreases outcomes.len(),
{
    if outcomes.len() == 0 {
        ModStateView::Sending(attempt)
    } else {
        match spec_step(max_retries, attempt, outcomes[0]) {
            ModStateView::Sending(a) => spec_run(max_retries, a, outcomes.drop_first()),
            ModStateView::Finished(r) => ModStateView::Finished(r),
        }
    }
}

/// Runs one moderation call against a recorded sequence of outcomes,
/// stopping at the first terminal one.
pub fn run_moderation(policy: &RetryPolicy, outcomes: &Vec<AttemptOutcome>) -> (r: ModerationState)
    ensures
        view_mod_state(&r) == spec_run(
            policy.max_retries,
            0,
            Seq::new(outcomes@.len(), |i: int| view_outcome(&outcomes@[i])),
        ),
{
    let ghost views = Seq::new(outcomes@.len(), |i: int| view_outcome(&outcomes@[i]));
    let mut state = ModerationState::Sending { attempt: 0 };
    let mut i: usize = 0;
    proof {
        assert(views.skip(0) =~= views);
    }
    while i < outcomes.len()
        invariant
            0 <= i <= outcomes@.len(),
            views == Seq::new(outcomes@.len(), |j: int| view_outcome(&outcomes@[j])),
            state is Sending ==> spec_run(policy.max_retries, state->attempt, views.skip(i as int))
                == spec_run(policy.max_retries, 0, views),
            state is Finished ==> view_mod_state(&state) == spec_run(policy.max_retries, 0, views),
        decreases outcomes@.len() - i,
    {
        if let ModerationState::Finished(_) = &state {
            return state;
        }
        let next = moderation_step(policy, &state, &outcomes[i]);
        proof {
            assert(views.skip(i as int)[0] == view_outcome(&outcomes@[i as int]));
            assert(views.skip(i as int).drop_first() =~= views.skip(i as int + 1));
        }
        state = next;
        i = i + 1;
    }
    state
}

/// A provider that answers transiently for fewer turns than the retry
/// budget allows and then succeeds lets the call succeed with the success
/// body's censored text.
pub proof fn lemma_retries_until_success(
    max_retries: u32,
    attempt: u32,
    outcomes: Seq<OutcomeView>,
    n: int,
)
    requires
        1 <= n <= outcomes.len(),
        attempt + n - 1 <= max_retries,
        forall|i: int| 0 <= i < n - 1 ==> spec_retriable(#[trigger] outcomes[i]),
        !spec_retriable(outcomes[n - 1]),
    ensures
        spec_run(max_retries, attempt, outcomes) == ModStateView::Finished(
            spec_classify(outcomes[n - 1]),
        ),
    decreases n,
{
    if n == 1 {
    } else {
        lemma_retries_until_success(
            max_retries,
            (attempt + 1) as u32,
            outcomes.drop_first(),
            n - 1,
        );
        assert(forall|i: int|
            0 <= i < n - 2 ==> #[trigger] outcomes.drop_first()[i] == outcomes[i + 1]);
        assert(outcomes.drop_first()[n - 2] == outcomes[n - 1]);
    }
}

/// A 4xx answer on the first attempt finishes the call at once as the
/// caller's error: no second outcome is ever consumed, whatever it would
/// have been.
pub proof fn lemma_client_error_immediate(
    max_retries: u32,
    outcomes: Seq<OutcomeView>,
    status: u16,
    body: Seq<char>,
)
    requires
        outcomes.len() >= 1,
        outcomes[0] == OutcomeView::Response(status, body),
        400 <= status < 500,
    ensures
        spec_run(max_retries, 0, outcomes) == ModStateView::Finished(
            ModResultView::Client(status, spec_message_or_empty(body)),
        ),
{
}

/// The retry budget is a hard bound: however the provider answers, the
/// call is finished once the outcomes outnumber the retries left. There
/// is no infinite retry loop.
pub proof fn lemma_run_terminates(max_retries: u32, attempt: u32, outcomes: Seq<OutcomeView>)
    requires
        attempt <= max_retries,
        outcomes.len() > max_retries - attempt,
    ensures
        spec_run(max_retries, attempt, outcomes) is Finished,
    decreases outcomes.len(),
{
    if outcomes.len() > 0 {
        match spec_step(max_retries, attempt, outcomes[0]) {
            ModStateView::Sending(a) => {
                lemma_run_terminates(max_retries, a, outcomes.drop_first());
            },
            ModStateView::Finished(_) => {},
        }
    }
}

/// A 5xx answer with any body.
pub open spec fn is_server_status(o: OutcomeView) -> bool {
    o matches OutcomeView::Response(st, _) && st >= 500
}

/// A provider that answers 5xx through the whole retry budget ends the
/// call as the provider's error, carrying the status of the answer that
/// exhausted the budget.
pub proof fn lemma_server_error_after_budget(max_retries: u32, outcomes: Seq<OutcomeView>)
    requires
        outcomes.len() == max_retries + 1,
        forall|i: int| 0 <= i < outcomes.len() ==> is_server_status(#[trigger] outcomes[i]),
    ensures
        spec_run(max_retries, 0, outcomes) == ModStateView::Finished(
            spec_classify(outcomes[max_retries as int]),
        ),
        spec_classify(outcomes[max_retries as int]) is Server,
{
    lemma_budget_general(max_retries, 0, outcomes);
}

proof fn lemma_budget_general(max_retries: u32, attempt: u32, outcomes: Seq<OutcomeView>)
    requires
        attempt <= max_retries,
        outcomes.len() == max_retries - attempt + 1,
        forall|i: int| 0 <= i < outcomes.len() ==> is_server_status(#[trigger] outcomes[i]),
    ensures
        spec_run(max_retries, attempt, outcomes) == ModStateView::Finished(
            spec_classify(outcomes[outcomes.len() - 1]),
        ),
        spec_classify(outcomes[outcomes.len() - 1]) is Server,
    decreases outcomes.len(),
{
    if attempt == max_retries {
        assert(outcomes.len() == 1);
    } else {
        lemma_budget_general(max_retries, (attempt + 1) as u32, outcomes.drop_first());
        assert(forall|i: int|
            0 <= i < outcomes.len() - 1 ==> #[trigger] outcomes.drop_first()[i] == outcomes[i
                + 1]);
    }
}

} // verus!
