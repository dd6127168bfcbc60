//! The query service: snapshot resolution and the translation of a read's
//! outcome into the response handed to the caller.
use std::marker::PhantomData;
use std::sync::Arc;

use vstd::prelude::*;

use crate::attribute::{transport_of, Attribute, RPCAttribute};
use crate::error::{runtime_failure_view, ServiceError, ServiceErrorView};

verus! {

/// The query service, holding a shared handle to the client through which the
/// ledger runtime is read.
pub struct PeaqDID<C, B> {
    client: Arc<C>,
    _marker: PhantomData<B>,
}

impl<C, B> PeaqDID<C, B> {
    /// The client handle the service reads through.
    pub closed spec fn client_spec(&self) -> Arc<C> {
        self.client
    }

    /// Create a service over the given client handle.
    pub fn new(client: Arc<C>) -> (r: Self)
        ensures
            r.client_spec() == client,
    {
        PeaqDID { client, _marker: PhantomData }
    }

    /// The client handle the service reads through.
    pub fn client(&self) -> (r: &Arc<C>)
        ensures
            *r == self.client_spec(),
    {
        &self.client
    }
}

/// The snapshot a query reads: the one the caller named, or else the best
/// block the node knows of.
pub open spec fn resolved_at<H>(at: Option<H>, best: H) -> H {
    match at {
        Some(h) => h,
        None => best,
    }
}

/// Fix the snapshot to query from the caller's optional handle and the node's
/// current best block.
pub fn resolve_at<H>(at: Option<H>, best: H) -> (r: H)
    ensures
        r == resolved_at(at, best),
        at is Some ==> r == at->Some_0,
        at is None ==> r == best,
{
    at.unwrap_or(best)
}

/// What the runtime's read returned, with the cause of a failure seen as text.
pub open spec fn outcome_view<BlockNumber, Moment>(
    outcome: Result<Option<Attribute<BlockNumber, Moment>>, String>,
) -> Result<Option<Attribute<BlockNumber, Moment>>, Seq<char>> {
    match outcome {
        Ok(found) => Ok(found),
        Err(diagnostic) => Err(diagnostic@),
    }
}

/// A response with its error seen through its view.
pub open spec fn response_view<BlockNumber, Moment>(
    r: Result<Option<RPCAttribute<BlockNumber, Moment>>, ServiceError>,
) -> Result<Option<RPCAttribute<BlockNumber, Moment>>, ServiceErrorView> {
    match r {
        Ok(found) => Ok(found),
        Err(e) => Err(e@),
    }
}

/// The response owed for each outcome of a read: a record is returned in its
/// transport form, absence stays absence, and a failure becomes the runtime
/// failure error carrying the cause's text.
pub open spec fn response_of<BlockNumber, Moment>(
    outcome: Result<Option<Attribute<BlockNumber, Moment>>, Seq<char>>,
) -> Result<Option<RPCAttribute<BlockNumber, Moment>>, ServiceErrorView> {
    match outcome {
        Ok(Some(item)) => Ok(Some(transport_of(item))),
        Ok(None) => Ok(None),
        Err(diagnostic) => Err(runtime_failure_view(diagnostic)),
    }
}

/// Translate what the runtime's read returned into the response for the
/// caller. A failed read is passed in with its cause already rendered as text.
pub fn translate_outcome<BlockNumber, Moment>(
    outcome: Result<Option<Attribute<BlockNumber, Moment>>, String>,
) -> (r: Result<Option<RPCAttribute<BlockNumber, Moment>>, ServiceError>)
    ensures
        response_view(r) == response_of(outcome_view(outcome)),
{
    match outcome {
        Ok(Some(item)) => Ok(Some(RPCAttribute::from(item))),
        Ok(None) => Ok(None),
        Err(diagnostic) => Err(ServiceError::runtime_failure(diagnostic)),
    }
}

} // verus!
