//! What comes back from an upstream service.

use vstd::prelude::*;

use crate::error::Failure;
use crate::error::RequestError;

verus! {

/// The reply of an upstream service to one GET request: its status code and
/// the text of its body.
#[derive(Debug, Clone, PartialEq, Eq)]
pub struct HttpReply {
    pub status: u16,
    pub body: String,
}

/// A reply as contracts see it.
pub struct Reply {
    pub status: u16,
    pub body: Seq<char>,
}

impl View for HttpReply {
    type V = Reply;

    open spec fn view(&self) -> Reply {
        Reply { status: self.status, body: self.body@ }
    }
}

impl HttpReply {
    /// The reply with the given status and body.
    pub fn new(status: u16, body: String) -> (reply: HttpReply)
        ensures
            reply@ == (Reply { status, body: body@ }),
    {
        HttpReply { status, body }
    }
}

/// How a GET request ended, as contracts see it: with a reply, or with a
/// failure of the transport.
pub open spec fn arrival_view(arrival: Result<HttpReply, RequestError>) -> Result<Reply, Failure> {
    match arrival {
        Ok(reply) => Ok(reply@),
        Err(error) => Err(error@),
    }
}

} // verus!
