//! The handlers and the reply they give.

use vstd::prelude::*;
use crate::extract::outcome_model;
use crate::identity::ClientId;
use crate::status::Status;

verus! {

/// What a request is answered with: the status to send, and the identity the
/// handler was given, for the server to record.
#[derive(Debug)]
pub struct Reply {
    pub status: Status,
    pub identity: Option<ClientId>,
}

/// A reply with its identity taken by its text.
pub struct ReplyModel {
    pub status: Status,
    pub identity: Option<Seq<char>>,
}

impl View for Reply {
    type V = ReplyModel;

    open spec fn view(&self) -> ReplyModel {
        ReplyModel {
            status: self.status,
            identity: match self.identity {
                Some(id) => Some(id@),
                None => None,
            },
        }
    }
}

impl ReplyModel {
    /// The reply of the handler that is given an identity.
    pub open spec fn greeting(identity: Seq<char>) -> ReplyModel {
        ReplyModel { status: Status::Success, identity: Some(identity) }
    }

    /// A reply that carries a status and no identity.
    pub open spec fn bare(status: Status) -> ReplyModel {
        ReplyModel { status, identity: None }
    }
}

/// The reply that follows an extraction: the handler's on an identity, the
/// rejecting status alone on a rejection.
pub open spec fn conclude_model(outcome: Result<Seq<char>, Status>) -> ReplyModel {
    match outcome {
        Ok(identity) => ReplyModel::greeting(identity),
        Err(status) => ReplyModel::bare(status),
    }
}

impl Reply {
    /// A reply that carries a status and no identity: what a request gets
    /// that reached no handler, or a handler that was given none.
    pub fn bare(status: Status) -> (reply: Reply)
        ensures
            reply@ == ReplyModel::bare(status),
    {
        Reply { status, identity: None }
    }
}

/// Serves a request on behalf of the caller it was given: succeeds, and
/// hands the identity on to be recorded.
pub fn hello_world(client_id: ClientId) -> (reply: Reply)
    ensures
        reply@ == ReplyModel::greeting(client_id@),
{
    Reply { status: Status::Success, identity: Some(client_id) }
}

/// Serves a request that needs no identity: succeeds.
pub fn hello_world2() -> (reply: Reply)
    ensures
        reply@ == ReplyModel::bare(Status::Success),
{
    Reply::bare(Status::Success)
}

/// Ends a request whose handler asks for an identity, once the extraction
/// step has run: on an identity the handler runs, on a rejection it does not
/// and the rejecting status is the reply.
pub fn conclude(outcome: Result<ClientId, Status>) -> (reply: Reply)
    ensures
        reply@ == conclude_model(outcome_model(outcome)),
{
    match outcome {
        Ok(client_id) => hello_world(client_id),
        Err(status) => Reply::bare(status),
    }
}

} // verus!
