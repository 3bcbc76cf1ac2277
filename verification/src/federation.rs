//! Federation: the assembly of resolved entities and the service payload.

use crate::context::Context;
use crate::error::{Pos, ServerError};
use crate::value::Value;
use vstd::prelude::*;

verus! {

/// How the registry is asked to render the schema as SDL text.
#[derive(Clone, Copy, Debug, PartialEq, Eq, Structural)]
pub struct SdlExportOptions {
    /// Render under the federation export rules.
    pub federation: bool,
}

impl SdlExportOptions {
    /// The plain rendering.
    pub fn new() -> (options: SdlExportOptions)
        ensures
            options == (SdlExportOptions { federation: false }),
    {
        SdlExportOptions { federation: false }
    }

    /// These options, with the federation export rules switched on.
    pub fn federation(self) -> (options: SdlExportOptions)
        ensures
            options == (SdlExportOptions { federation: true, ..self }),
    {
        SdlExportOptions { federation: true }
    }
}

/// The payload of `_service`: what its one field `sdl` holds.
#[derive(Clone, Debug, PartialEq, Eq)]
pub struct Service {
    /// The schema as SDL text under the federation export rules; `None` is
    /// the null string.
    pub sdl: Option<String>,
}

impl Service {
    /// The payload for the SDL text that the registry rendered. Nothing is
    /// kept between calls: each `_service` renders anew.
    pub fn new(sdl: String) -> (service: Service)
        ensures
            service.sdl == Some(sdl),
    {
        Service { sdl: Some(sdl) }
    }
}

/// What the resolution of one representation came to: the entity, no match
/// among the registered types (`Ok(None)`), or a resolver's error.
pub type Found = Result<Option<Value>, ServerError>;

/// Whether a representation failed: it matched no type, or its resolver
/// raised an error.
pub open spec fn is_failure(found: Found) -> bool {
    !(found matches Ok(Some(_)))
}

/// The error a failed representation ends the batch with: the resolver's own
/// error unchanged, or, where no type matched, entity-not-found at the
/// position of the `_entities` field.
pub open spec fn failure_of(found: Found, pos: Pos) -> ServerError {
    match found {
        Err(error) => error,
        _ => ServerError::EntityNotFound { pos },
    }
}

/// Whether the representation at `i` is the first that failed.
pub open spec fn is_first_failure(found: Seq<Found>, i: int) -> bool {
    &&& 0 <= i < found.len()
    &&& is_failure(found[i])
    &&& forall|j: int| 0 <= j < i ==> !is_failure(#[trigger] found[j])
}

/// The entities of a batch in which no representation failed, in the order
/// of the representations.
pub open spec fn entities_of(found: Seq<Found>) -> Seq<Value> {
    Seq::new(found.len(), |i: int| found[i]->Ok_0->Some_0)
}

/// What `_entities` answers, given what each representation came to.
pub open spec fn entities_answer(found: Seq<Found>, pos: Pos, answer: Result<Option<Value>, ServerError>) -> bool {
    if exists|i: int| is_first_failure(found, i) {
        answer == Err::<Option<Value>, ServerError>(
            failure_of(found[choose|i: int| is_first_failure(found, i)], pos),
        )
    } else {
        answer matches Ok(Some(Value::List(items))) && items@ == entities_of(found)
    }
}

/// A batch without representations answers the empty list.
pub proof fn lemma_no_representations(pos: Pos, answer: Result<Option<Value>, ServerError>)
    requires
        entities_answer(Seq::<Found>::empty(), pos, answer),
    ensures
        answer matches Ok(Some(Value::List(items))) && items@ == Seq::<Value>::empty(),
{
}

/// A batch in which every representation was resolved answers the list of
/// the entities, the entity of the representation at `i` at `i`.
pub proof fn lemma_entities_keep_order(
    found: Seq<Found>,
    pos: Pos,
    answer: Result<Option<Value>, ServerError>,
)
    requires
        forall|i: int| 0 <= i < found.len() ==> (#[trigger] found[i]) matches Ok(Some(_)),
        entities_answer(found, pos, answer),
    ensures
        answer matches Ok(Some(Value::List(items))) && items@.len() == found.len() && forall|
            i: int,
        |
            0 <= i < found.len() ==> found[i] == Ok::<Option<Value>, ServerError>(
                Some(#[trigger] items@[i]),
            ),
{
}

/// A batch with a representation `k` that matched no type fails as a whole
/// with entity-not-found at the position of the `_entities` field, whatever
/// the representations after `k` came to and whether or not those before it
/// matched a type, as long as no resolver before it raised an error of its
/// own.
pub proof fn lemma_unresolved_fails_batch(
    found: Seq<Found>,
    pos: Pos,
    k: int,
    answer: Result<Option<Value>, ServerError>,
)
    requires
        0 <= k < found.len(),
        found[k] == Ok::<Option<Value>, ServerError>(None),
        forall|j: int| 0 <= j < k ==> (#[trigger] found[j]) is Ok,
        entities_answer(found, pos, answer),
    ensures
        answer == Err::<Option<Value>, ServerError>(ServerError::EntityNotFound { pos }),
{
    lemma_first_failure_exists(found, k);
    let i = choose|i: int| is_first_failure(found, i);
    if i > k {
        assert(!is_failure(found[k]));
    }
}

/// Before a representation that failed stands a first one that failed.
pub proof fn lemma_first_failure_exists(found: Seq<Found>, k: int)
    requires
        0 <= k < found.len(),
        is_failure(found[k]),
    ensures
        exists|i: int| is_first_failure(found, i) && i <= k,
    decreases k,
{
    if exists|j: int| 0 <= j < k && is_failure(#[trigger] found[j]) {
        let j = choose|j: int| 0 <= j < k && is_failure(#[trigger] found[j]);
        lemma_first_failure_exists(found, j);
    } else {
        assert(is_first_failure(found, k));
    }
}

/// A batch fails with the error of the first representation that failed:
/// the entities of the others are dropped.
pub proof fn lemma_first_failure_decides(
    found: Seq<Found>,
    pos: Pos,
    i: int,
    answer: Result<Option<Value>, ServerError>,
)
    requires
        is_first_failure(found, i),
        entities_answer(found, pos, answer),
    ensures
        answer == Err::<Option<Value>, ServerError>(failure_of(found[i], pos)),
{
    let c = choose|c: int| is_first_failure(found, c);
    if c < i {
        assert(!is_failure(found[c]));
    } else if i < c {
        assert(!is_failure(found[i]));
    }
}

/// Turns what one representation came to into the entity or the error it
/// ends the batch with.
pub fn entity_or_not_found(found: Found, pos: Pos) -> (entity: Result<Value, ServerError>)
    ensures
        entity == match found {
            Ok(Some(value)) => Ok::<Value, ServerError>(value),
            _ => Err(failure_of(found, pos)),
        },
{
    match found {
        Ok(Some(value)) => Ok(value),
        Ok(None) => Err(ServerError::EntityNotFound { pos }),
        Err(error) => Err(error),
    }
}

/// Assembles the answer to the `_entities` field that `ctx` resolves from
/// what each representation came to, given in the order of the
/// representations.
///
/// The batch fails as a whole with the error of the first representation
/// that failed; the entities of the others are dropped. Where none failed,
/// the answer is the list of the entities in the order of the
/// representations; for no representations, the empty list.
pub fn collect_entities(ctx: &Context, found: Vec<Found>) -> (answer: Result<
    Option<Value>,
    ServerError,
>)
    ensures
        entities_answer(found@, ctx.item.pos, answer),
{
    let ghost all = found@;
    let pos = ctx.item.pos;
    let mut entities: Vec<Value> = Vec::new();
    for outcome in it: found.into_iter()
        invariant
            it.seq() == all,
            pos == ctx.item.pos,
            entities@.len() == it.index(),
            forall|j: int| 0 <= j < it.index() ==> !is_failure(#[trigger] all[j]),
            forall|j: int| 0 <= j < it.index() ==> entities@[j] == all[j]->Ok_0->Some_0,
    {
        match entity_or_not_found(outcome, pos) {
            Ok(value) => {
                entities.push(value);
            },
            Err(error) => {
                assert(is_first_failure(all, it.index() as int));
                return Err(error);
            },
        }
    }
    assert(entities@ =~= entities_of(all));
    Ok(Some(Value::List(entities)))
}

} // verus!
