//! The per-connection decision: from the raw bytes read off the socket to the
//! one thing to do next. A parse failure becomes a `400 Bad Request` whose
//! body carries the diagnostic text; a parsed request goes to the router.

use vstd::prelude::*;
use crate::bytes::push_all;
use crate::request::{ParseError, ParseErrorModel, Request, sp_parse};
use crate::response::{BodyModel, Response, ResponseBody, ResponseModel, Status};
use crate::router::{Action, ActionModel, route, sp_route};
use crate::text::{lit_msg_malformed, lit_msg_unknown_method, sp_msg_malformed,
    sp_msg_unknown_method};

verus! {

/// The diagnostic text a parse failure puts in the `400` body.
pub open spec fn sp_error_message(e: ParseErrorModel) -> Seq<u8> {
    match e {
        ParseErrorModel::MalformedRequest => sp_msg_malformed(),
        ParseErrorModel::UnsupportedMethod(token) => sp_msg_unknown_method() + token,
    }
}

impl ParseError {
    /// The diagnostic text for this failure.
    pub fn message(&self) -> (r: Vec<u8>)
        ensures
            r@ == sp_error_message(self@),
    {
        match self {
            ParseError::MalformedRequest => lit_msg_malformed(),
            ParseError::UnsupportedMethod(token) => {
                let mut r = lit_msg_unknown_method();
                push_all(&mut r, token.as_slice());
                r
            },
        }
    }
}

/// The `400 Bad Request` carrying a parse failure's diagnostic text.
pub open spec fn sp_bad_request(e: ParseErrorModel) -> ResponseModel {
    ResponseModel { status: Status::BadRequest, body: BodyModel::Bare(sp_error_message(e)) }
}

/// What a connection does with the bytes it read: the router's choice on a
/// parsed request, a `400` on a parse failure.
pub open spec fn sp_handle(input: Seq<u8>) -> ActionModel {
    match sp_parse(input) {
        Ok(req) => sp_route(req),
        Err(e) => ActionModel::Respond(sp_bad_request(e)),
    }
}

/// Decides what to do with the bytes read off one connection.
pub fn handle_request(input: &[u8]) -> (a: Action)
    ensures
        a@ == sp_handle(input@),
{
    match Request::parse(input) {
        Ok(req) => route(&req),
        Err(e) => {
            let body = e.message();
            Action::Respond(Response { status: Status::BadRequest, body: ResponseBody::Bare(body) })
        },
    }
}

} // verus!
