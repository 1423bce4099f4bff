//! The extraction step: what turns the raw parameter of a request into the
//! identity of its caller, or turns the request away.
//!
//! The router takes the step as a function from the raw parameter to an
//! identity or a rejecting status, so that another rule can replace the
//! stand-in of this module without a change to routing.

use vstd::prelude::*;
use crate::identity::ClientId;
use crate::status::Status;

verus! {

/// The text of the identity that the stand-in extraction yields.
pub open spec fn fixed_identity() -> Seq<char> {
    seq!['1']
}

/// An extraction's outcome with the identity taken by its text.
pub open spec fn outcome_model(outcome: Result<ClientId, Status>) -> Result<Seq<char>, Status> {
    match outcome {
        Ok(id) => Ok(id@),
        Err(status) => Err(status),
    }
}

/// What the stand-in extraction decides on a raw parameter: the fixed
/// identity, whatever the parameter holds.
pub open spec fn fixed_decision(raw: Seq<char>) -> Result<Seq<char>, Status> {
    Ok(fixed_identity())
}

impl ClientId {
    /// The stand-in extraction. It reads nothing of the request and always
    /// yields the identity "1": it authorizes nobody and is a placeholder for
    /// a real rule.
    #[allow(unused_variables)]
    pub fn from_request(raw: &str) -> (outcome: Result<ClientId, Status>)
        ensures
            outcome_model(outcome) == fixed_decision(raw@),
    {
        let text = "1".to_owned();
        proof {
            reveal_strlit("1");
            assert(text@ =~= fixed_identity());
        }
        Ok(ClientId::new(text))
    }
}

} // verus!
