//! The decision core of the link-store coordinator. Each store interaction
//! is reported back as an event; these functions decide, from the event and
//! the retry budget alone, whether to retry, fail, or return — so the policy
//! holds whatever shell performs the actual store calls.

use vstd::prelude::*;

use crate::errors::CreateError;
use crate::errors::LookupError;
use crate::link::Link;

verus! {

/// The fixed number of identifier-generation-and-insert attempts that one
/// create request may spend.
pub const RETRY_BUDGET: u64 = 3;

/// The deadline, in milliseconds, that the coordinator imposes on a single
/// store insert or lookup.
pub const STORE_TIMEOUT_MS: u64 = 300;

/// How long, in seconds, shared and private caches may serve a redirect,
/// and for how much longer a stale one may still be served.
pub const REDIRECT_CACHE_SECS: u64 = 300;

/// What a single insert attempt reported: the row was inserted, the id
/// collided with an existing row, the store failed for another reason, or
/// the deadline elapsed first.
#[derive(Debug, PartialEq, Eq)]
pub enum InsertEvent {
    Inserted(Link),
    UniqueViolation,
    Failed,
    TimedOut,
}

/// What the create loop does after an insert attempt: draw a fresh token and
/// try again, or finish with the given result.
#[derive(Debug, PartialEq, Eq)]
pub enum CreateStep {
    Retry,
    Done(Result<Link, CreateError>),
}

/// What a single point read reported.
#[derive(Debug, PartialEq, Eq)]
pub enum LookupEvent {
    Found(Link),
    Missing,
    Failed,
    TimedOut,
}

/// What the create loop must do after its `attempts_done`-th insert attempt
/// (counted from zero) ended in the given event. Only a uniqueness conflict
/// with budget to spare is retried; a conflict on the last funded attempt
/// reports identifier-space exhaustion; a timeout or any other store
/// failure ends the request at once, unretried.
pub open spec fn create_step_model(attempts_done: u64, ev: InsertEvent) -> CreateStep {
    match ev {
        InsertEvent::Inserted(l) => CreateStep::Done(Ok(l)),
        InsertEvent::TimedOut => CreateStep::Done(Err(CreateError::StoreTimeout)),
        InsertEvent::Failed => CreateStep::Done(Err(CreateError::StoreError)),
        InsertEvent::UniqueViolation => if attempts_done + 1 < RETRY_BUDGET {
            CreateStep::Retry
        } else {
            CreateStep::Done(Err(CreateError::IdSpaceExhausted))
        },
    }
}

/// What a lookup must answer for the given read outcome. There is no retry
/// in a lookup: every event decides the request — in particular a timeout
/// fails it at once with `StoreTimeout`.
pub open spec fn lookup_step_model(ev: LookupEvent) -> Result<Link, LookupError> {
    match ev {
        LookupEvent::Found(l) => Ok(l),
        LookupEvent::Missing => Err(LookupError::NotFound),
        LookupEvent::Failed => Err(LookupError::StoreError),
        LookupEvent::TimedOut => Err(LookupError::StoreTimeout),
    }
}

/// Decides what the create loop does after an insert attempt: exactly what
/// `create_step_model` prescribes.
pub fn create_decision(attempts_done: u64, ev: InsertEvent) -> (r: CreateStep)
    requires
        attempts_done < RETRY_BUDGET,
    ensures
        r == create_step_model(attempts_done, ev),
{
    match ev {
        InsertEvent::Inserted(l) => CreateStep::Done(Ok(l)),
        InsertEvent::TimedOut => CreateStep::Done(Err(CreateError::StoreTimeout)),
        InsertEvent::Failed => CreateStep::Done(Err(CreateError::StoreError)),
        InsertEvent::UniqueViolation => {
            if attempts_done + 1 < RETRY_BUDGET {
                CreateStep::Retry
            } else {
                CreateStep::Done(Err(CreateError::IdSpaceExhausted))
            }
        },
    }
}

/// Maps the outcome of the single point read to the lookup result: exactly
/// what `lookup_step_model` prescribes.
pub fn lookup_decision(ev: LookupEvent) -> (r: Result<Link, LookupError>)
    ensures
        r == lookup_step_model(ev),
{
    match ev {
        LookupEvent::Found(l) => Ok(l),
        LookupEvent::Missing => Err(LookupError::NotFound),
        LookupEvent::Failed => Err(LookupError::StoreError),
        LookupEvent::TimedOut => Err(LookupError::StoreTimeout),
    }
}

/// Retry exhaustion: a uniqueness violation is retried exactly while budget
/// remains, and a violation on the last funded attempt decides the request
/// with `IdSpaceExhausted` — by `create_link`'s contract, with the table
/// left exactly as it was. So a store that reports a violation for every
/// generated token across the full budget drives a create to that failure.
pub proof fn lemma_retry_exhaustion()
    ensures
        forall|a: u64|
            a + 1 < RETRY_BUDGET ==> #[trigger] create_step_model(a, InsertEvent::UniqueViolation)
                == CreateStep::Retry,
        create_step_model((RETRY_BUDGET - 1) as u64, InsertEvent::UniqueViolation)
            == CreateStep::Done(Err::<Link, CreateError>(CreateError::IdSpaceExhausted)),
{
}

/// Timeout isolation: a store deadline that elapses decides the request at
/// once with `StoreTimeout`, on the lookup path and on the create path
/// alike — never with a retry, whatever attempt the create loop was on.
pub proof fn lemma_timeout_isolation()
    ensures
        lookup_step_model(LookupEvent::TimedOut) == Err::<Link, LookupError>(
            LookupError::StoreTimeout,
        ),
        forall|a: u64|
            #[trigger] create_step_model(a, InsertEvent::TimedOut) == CreateStep::Done(
                Err::<Link, CreateError>(CreateError::StoreTimeout),
            ),
{
}

} // verus!
