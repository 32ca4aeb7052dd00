//! The link-store coordinator: the full create and lookup protocols, run
//! against the link table through the decision core. `create_link` validates
//! the target, then spends at most the retry budget on
//! generate-token-and-insert attempts; `lookup` performs one point read.

use vstd::prelude::*;

use crate::errors::CreateError;
use crate::errors::LookupError;
use crate::link::Link;
use crate::link::NewLink;
use crate::link::token_wf;
use crate::protocol::CreateStep;
use crate::protocol::InsertEvent;
use crate::protocol::LookupEvent;
use crate::protocol::RETRY_BUDGET;
use crate::protocol::create_decision;
use crate::protocol::lookup_decision;
use crate::store::LinkTable;
use crate::store::link_wf;
use crate::token::TokenSource;
use crate::urls::canon_abs_url;
use crate::urls::canonical_url;

verus! {

/// What a lookup returns on a table holding the given id-to-target map:
/// the stored target when the id is present, `NotFound` when it is not.
pub open spec fn lookup_model(t: Map<Seq<char>, Seq<char>>, id: Seq<char>) -> Result<
    Seq<char>,
    LookupError,
> {
    if t.contains_key(id) {
        Ok(t[id])
    } else {
        Err(LookupError::NotFound)
    }
}

/// Creates a link for the requested target URL.
///
/// The raw target is parsed first; a target that is not an absolute URL is
/// rejected with `MalformedInput` before the table or the token source is
/// touched. Otherwise up to `RETRY_BUDGET` fresh tokens are drawn and
/// inserted; a token that collides with a stored id is discarded without a
/// persisted side effect, and when the whole budget is spent on collisions
/// the request fails with `IdSpaceExhausted`, leaving the table exactly as
/// it was. A successful create stores and returns the canonical form of the
/// parsed target under an id that the table did not hold before. Against an
/// empty table no token can collide, so a valid target is then owed
/// success, whatever the source draws.
pub fn create_link<G: TokenSource>(table: &mut LinkTable, tokens: &mut G, req: &NewLink) -> (r:
    Result<Link, CreateError>)
    requires
        old(table).wf(),
    ensures
        final(table).wf(),
        r == Err::<Link, CreateError>(CreateError::MalformedInput) <==> canon_abs_url(
            req.target_url@,
        ) is None,
        canon_abs_url(req.target_url@) is None ==> *final(table) == *old(table) && *final(tokens)
            == *old(tokens),
        r matches Ok(l) ==> canon_abs_url(req.target_url@) == Some(l.target_url@) && canon_abs_url(
            l.target_url@,
        ) == Some(l.target_url@) && token_wf(l.id@) && !old(table)@.contains_key(l.id@)
            && final(table)@ == old(table)@.insert(l.id@, l.target_url@),
        r is Err ==> final(table)@ == old(table)@,
        r matches Err(e) ==> e == CreateError::MalformedInput || e == CreateError::IdSpaceExhausted,
        old(table)@ == Map::<Seq<char>, Seq<char>>::empty() && canon_abs_url(
            req.target_url@,
        ) is Some ==> r is Ok,
{
    let canon = match canonical_url(&req.target_url) {
        Ok(c) => c,
        Err(e) => {
            return Err(e);
        },
    };
    let mut attempt: u64 = 0;
    while attempt < RETRY_BUDGET
        invariant
            table.wf(),
            table@ == old(table)@,
            attempt <= RETRY_BUDGET,
            canon_abs_url(req.target_url@) == Some(canon@),
            canon_abs_url(canon@) == Some(canon@),
            old(table)@ == Map::<Seq<char>, Seq<char>>::empty() ==> attempt == 0,
        decreases RETRY_BUDGET - attempt,
    {
        let t = tokens.next_token();
        let ev = match table.insert_unique(&t, &canon) {
            Some(l) => InsertEvent::Inserted(l),
            None => InsertEvent::UniqueViolation,
        };
        match create_decision(attempt, ev) {
            CreateStep::Done(res) => {
                return res;
            },
            CreateStep::Retry => {},
        }
        attempt = attempt + 1;
    }
    Err(CreateError::IdSpaceExhausted)
}

/// Looks the given id up in the table.
///
/// The result is exactly `lookup_model` of the table's contents: the stored
/// link when the id is present — with the id asked for and the stored
/// canonical target — and `NotFound` when it is not. A lookup never mutates
/// the table.
pub fn lookup(table: &LinkTable, id: &String) -> (r: Result<Link, LookupError>)
    requires
        table.wf(),
    ensures
        r matches Ok(l) ==> lookup_model(table@, id@) == Ok::<Seq<char>, LookupError>(
            l.target_url@,
        ) && l.id@ == id@ && link_wf(l),
        r matches Err(e) ==> lookup_model(table@, id@) == Err::<Seq<char>, LookupError>(e),
        r is Ok <==> table@.contains_key(id@),
{
    let ev = match table.select_by_id(id) {
        Some(l) => LookupEvent::Found(l),
        None => LookupEvent::Missing,
    };
    lookup_decision(ev)
}

/// Round trip: a link recorded by a successful create — the table's map
/// extended with the new id and the canonical target — is returned by a
/// subsequent lookup of that id, with exactly that target. Together with
/// `create_link`'s postcondition that the stored target is its own
/// canonical parse, re-parsing the looked-up value yields the same string.
pub proof fn lemma_round_trip(t: Map<Seq<char>, Seq<char>>, id: Seq<char>, c: Seq<char>)
    ensures
        lookup_model(t.insert(id, c), id) == Ok::<Seq<char>, LookupError>(c),
{
    assert(t.insert(id, c).contains_key(id));
    assert(t.insert(id, c)[id] == c);
}

/// Uniqueness: ids of successful creates are pairwise distinct. A create
/// only succeeds with an id the table does not hold, and records it; so a
/// second create that succeeds against the extended table cannot return the
/// first id again, whatever targets were stored and even when the token
/// source repeats tokens across attempts.
pub proof fn lemma_create_ids_distinct(
    t: Map<Seq<char>, Seq<char>>,
    id1: Seq<char>,
    c1: Seq<char>,
    id2: Seq<char>,
)
    requires
        !t.contains_key(id1),
        !t.insert(id1, c1).contains_key(id2),
    ensures
        id1 != id2,
{
    assert(t.insert(id1, c1).contains_key(id1));
}

/// The table's map after a sequence of successful creates, each recorded as
/// its returned id and stored canonical target.
pub open spec fn apply_creates(
    t: Map<Seq<char>, Seq<char>>,
    steps: Seq<(Seq<char>, Seq<char>)>,
) -> Map<Seq<char>, Seq<char>>
    decreases steps.len(),
{
    if steps.len() == 0 {
        t
    } else {
        apply_creates(t, steps.drop_last()).insert(steps.last().0, steps.last().1)
    }
}

/// Every create of the sequence succeeded: by `create_link`'s contract,
/// each id was fresh for the table state that create ran against.
pub open spec fn creates_fresh(
    t: Map<Seq<char>, Seq<char>>,
    steps: Seq<(Seq<char>, Seq<char>)>,
) -> bool {
    forall|k: int|
        0 <= k < steps.len() ==> !apply_creates(t, steps.take(k)).contains_key(
            #[trigger] steps[k].0,
        )
}

/// One more create extends the applied map by one insert.
proof fn lemma_apply_creates_take_step(
    t: Map<Seq<char>, Seq<char>>,
    steps: Seq<(Seq<char>, Seq<char>)>,
    k: int,
)
    requires
        0 <= k < steps.len(),
    ensures
        apply_creates(t, steps.take(k + 1)) == apply_creates(t, steps.take(k)).insert(
            steps[k].0,
            steps[k].1,
        ),
{
    assert(steps.take(k + 1).drop_last() =~= steps.take(k));
    assert(steps.take(k + 1).last() == steps[k]);
}

/// An id present after some prefix of creates stays present after every
/// longer prefix: creates only insert, nothing removes.
proof fn lemma_apply_creates_monotone(
    t: Map<Seq<char>, Seq<char>>,
    steps: Seq<(Seq<char>, Seq<char>)>,
    k: int,
    m: int,
    id: Seq<char>,
)
    requires
        0 <= k <= m <= steps.len(),
        apply_creates(t, steps.take(k)).contains_key(id),
    ensures
        apply_creates(t, steps.take(m)).contains_key(id),
    decreases m - k,
{
    if k < m {
        lemma_apply_creates_monotone(t, steps, k, m - 1, id);
        lemma_apply_creates_take_step(t, steps, m - 1);
    }
}

/// Uniqueness over a whole run: in any sequence of successful creates
/// against one table, the returned ids are pairwise distinct — however many
/// creates ran, however the token source behaved, and even when tokens
/// repeated across attempts. Each create only succeeds with an id that the
/// table did not hold, and records it; concurrent creates are covered
/// because the store's atomic constraint check serializes the inserts.
pub proof fn lemma_create_ids_pairwise_distinct(
    t: Map<Seq<char>, Seq<char>>,
    steps: Seq<(Seq<char>, Seq<char>)>,
    i: int,
    j: int,
)
    requires
        creates_fresh(t, steps),
        0 <= i < j < steps.len(),
    ensures
        steps[i].0 != steps[j].0,
{
    lemma_apply_creates_take_step(t, steps, i);
    assert(apply_creates(t, steps.take(i + 1)).contains_key(steps[i].0));
    lemma_apply_creates_monotone(t, steps, i + 1, j, steps[i].0);
    assert(!apply_creates(t, steps.take(j)).contains_key(steps[j].0));
}

} // verus!
