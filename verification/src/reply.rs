//! What a GET of the device came back with.

use vstd::prelude::*;
use crate::error::{Failure, FailureView};
use crate::json::{json_document, Json};

verus! {

/// The outcome of one GET.
#[derive(Clone, Debug, PartialEq, Eq)]
pub enum Reply {
    /// The round trip failed; the transport's account of it.
    Failed(String),
    /// The device answered.
    Answered { status: u16, body: Vec<u8> },
}

/// Whether `status` reports success: 200 to 299.
pub open spec fn succeeded(status: u16) -> bool {
    200 <= status <= 299
}

/// The document in `reply`. A failed round trip has none; an answer has one
/// only if its status reports success, whatever its body holds, and then
/// only if the body is JSON text.
pub open spec fn document_of(reply: Reply) -> Result<Json, FailureView> {
    match reply {
        Reply::Failed(account) => Err(FailureView::Transport(account@)),
        Reply::Answered { status, body } => if !succeeded(status) {
            Err(FailureView::Status(status))
        } else {
            match json_document(body@) {
                Ok(document) => Ok(document),
                Err(complaint) => Err(FailureView::Syntax(complaint)),
            }
        },
    }
}

/// Decides [`succeeded`]. An answer's body is worth reading only where this
/// holds.
pub fn is_success(status: u16) -> (answer: bool)
    ensures
        answer == succeeded(status),
{
    200 <= status && status <= 299
}

impl Reply {
    /// Checks the reply and reads its body. The status is looked at first:
    /// the body of an answer that reports failure is not read.
    pub fn document(&self) -> (outcome: Result<Json, Failure>)
        ensures
            match outcome {
                Ok(document) => document_of(*self) == Ok::<Json, FailureView>(document),
                Err(failure) => document_of(*self) == Err::<Json, FailureView>(failure@),
            },
    {
        match self {
            Reply::Failed(account) => Err(Failure::Transport(account.clone())),
            Reply::Answered { status, body } => {
                if !is_success(*status) {
                    return Err(Failure::Status(*status));
                }
                match Json::parse(body.as_slice()) {
                    Ok(document) => Ok(document),
                    Err(complaint) => Err(Failure::Syntax(complaint)),
                }
            },
        }
    }
}

} // verus!
