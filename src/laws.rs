//! Laws of the query service, stated over the contracts of its functions.
use vstd::prelude::*;

use crate::attribute::{Attribute, RPCAttribute};
use crate::error::{error_code, Error, ServiceErrorView};
use crate::service::{resolved_at, response_of};

verus! {

/// Two reads with the same outcome: the same record, both absent, or both
/// failed (whatever text each failure's cause has).
pub open spec fn same_read<BlockNumber, Moment>(
    o1: Result<Option<Attribute<BlockNumber, Moment>>, Seq<char>>,
    o2: Result<Option<Attribute<BlockNumber, Moment>>, Seq<char>>,
) -> bool {
    match (o1, o2) {
        (Ok(a), Ok(b)) => a == b,
        (Err(_), Err(_)) => true,
        _ => false,
    }
}

/// Two responses that agree: the same attribute, both absent, or errors with
/// the same code.
pub open spec fn same_response<BlockNumber, Moment>(
    r1: Result<Option<RPCAttribute<BlockNumber, Moment>>, ServiceErrorView>,
    r2: Result<Option<RPCAttribute<BlockNumber, Moment>>, ServiceErrorView>,
) -> bool {
    match (r1, r2) {
        (Ok(a), Ok(b)) => a == b,
        (Err(e1), Err(e2)) => e1.code == e2.code,
        _ => false,
    }
}

/// A query repeated with the same explicit snapshot reads that snapshot each
/// time, whatever the best block is at each call; and where the runtime's read
/// of a fixed snapshot comes out the same, so does the response.
pub proof fn lemma_fixed_snapshot_repeatable<H, BlockNumber, Moment>(
    at: H,
    best1: H,
    best2: H,
    o1: Result<Option<Attribute<BlockNumber, Moment>>, Seq<char>>,
    o2: Result<Option<Attribute<BlockNumber, Moment>>, Seq<char>>,
)
    requires
        same_read(o1, o2),
    ensures
        resolved_at(Some(at), best1) == at,
        resolved_at(Some(at), best2) == at,
        same_response(response_of(o1), response_of(o2)),
{
}

/// A query without a snapshot reads the best block known at the time of the
/// call, so two such queries made against different best blocks read
/// different snapshots.
pub proof fn lemma_unspecified_snapshot_is_current<H>(best1: H, best2: H)
    ensures
        resolved_at(None, best1) == best1,
        resolved_at(None, best2) == best2,
        best1 != best2 ==> resolved_at(None::<H>, best1) != resolved_at(None::<H>, best2),
{
}

/// A failed read yields the runtime failure error, with the code that
/// `i64::from` gives that error, whatever the cause.
pub proof fn lemma_failure_has_runtime_code<BlockNumber, Moment>(diagnostic: Seq<char>)
    ensures
        response_of(Err::<Option<Attribute<BlockNumber, Moment>>, Seq<char>>(diagnostic)) matches Err(e)
            && e.code == error_code(Error::RuntimeError)
            && e.code == <i64 as vstd::std_specs::convert::FromSpec<Error>>::from_spec(Error::RuntimeError)
            && e.code == 1,
{
}

/// A read that found no record yields absence, never an error.
pub proof fn lemma_absent_is_not_error<BlockNumber, Moment>()
    ensures
        response_of(Ok::<Option<Attribute<BlockNumber, Moment>>, Seq<char>>(None)) == Ok::<
            Option<RPCAttribute<BlockNumber, Moment>>,
            ServiceErrorView,
        >(None),
{
}

} // verus!
