//! The snapshot resolver.
//!
//! Maps an optional caller-supplied snapshot identifier to a concrete
//! retained snapshot index. An absent identifier resolves to the current
//! head at call time; a present identifier resolves to that exact
//! snapshot, and fails when it is not retained (it lies past the head).

use vstd::prelude::*;
use crate::error::QueryError;
use crate::ids::BlockNumber;

verus! {

/// The snapshot a request addresses: the head when no identifier is
/// given, the identified snapshot when it is retained, nothing when it
/// is not.
pub open spec fn resolve_spec(at: Option<BlockNumber>, head: BlockNumber) -> Option<BlockNumber> {
    match at {
        None => Some(head),
        Some(n) => if n <= head {
            Some(n)
        } else {
            None
        },
    }
}

/// Resolves an optional snapshot identifier against the current head.
///
/// Returns the head when no identifier is supplied, the identified
/// snapshot when it is retained, and a `SnapshotNotFound` resolution
/// error otherwise. No side effects.
pub fn resolve_snapshot(at: Option<BlockNumber>, head: BlockNumber) -> (r: Result<
    BlockNumber,
    QueryError,
>)
    ensures
        match resolve_spec(at, head) {
            Some(n) => r matches Ok(s) && s == n,
            None => at matches Some(n) && r matches Err(e) && e == (QueryError::SnapshotNotFound {
                requested: n,
                head,
            }),
        },
{
    match at {
        None => Ok(head),
        Some(n) => if n <= head {
            Ok(n)
        } else {
            Err(QueryError::SnapshotNotFound { requested: n, head })
        },
    }
}

/// Resolving no identifier and resolving the head's own identifier pick
/// the same snapshot.
pub proof fn lemma_resolve_default(head: BlockNumber)
    ensures
        resolve_spec(None, head) == resolve_spec(Some(head), head),
{
}

} // verus!
