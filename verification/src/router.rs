//! Route dispatch: from a parsed request to the one thing the connection must
//! do next — answer directly, read a file, or write one.
//!
//! The first `/`-separated path segment picks the branch: the root answers
//! `200` with no body; `user-agent` reflects that header (or `404` when it is
//! absent); `echo` answers with the second segment, advertising any
//! `Accept-Encoding` back as `Content-Encoding`; `files` turns into a file
//! read (GET) or a file write (POST, the body up to its first `\r`); anything
//! else, and any path too short for its branch, answers `404`.

use vstd::prelude::*;
use crate::bytes::{bytes_eq, find_from, lemma_find_from, sp_find_from, sp_split, split_bytes};
use crate::request::{Method, Request, RequestModel};
use crate::response::{BodyModel, Response, ResponseBody, ResponseModel, Status};
use crate::text::{
    lit_seg_echo, lit_seg_files, lit_key_user_agent, lit_slash, sp_seg_echo, sp_seg_files,
    sp_key_user_agent, sp_slash,
};

verus! {

/// Model of what the connection does after routing.
pub enum ActionModel {
    /// Answer with this response.
    Respond(ResponseModel),
    /// Read the named file under the serving directory, then answer through
    /// `sp_file_read_response`.
    ReadFile { name: Seq<u8> },
    /// Write `content` to the named file under the serving directory, then
    /// answer through `sp_file_write_response`.
    WriteFile { name: Seq<u8>, content: Seq<u8> },
}

/// What the connection does after routing.
pub enum Action {
    Respond(Response),
    ReadFile { name: Vec<u8> },
    WriteFile { name: Vec<u8>, content: Vec<u8> },
}

impl View for Action {
    type V = ActionModel;

    open spec fn view(&self) -> ActionModel {
        match self {
            Action::Respond(r) => ActionModel::Respond(r@),
            Action::ReadFile { name } => ActionModel::ReadFile { name: name@ },
            Action::WriteFile { name, content } => ActionModel::WriteFile {
                name: name@,
                content: content@,
            },
        }
    }
}

/// A `404 Not Found` with no headers and no body.
pub open spec fn sp_not_found() -> ResponseModel {
    ResponseModel { status: Status::NotFound, body: BodyModel::Bare(Seq::<u8>::empty()) }
}

/// The body a `POST /files/{name}` writes: the request body up to (not
/// including) its first carriage return.
pub open spec fn sp_write_content(body: Seq<u8>) -> Seq<u8> {
    match sp_find_from(body, seq![13u8], 0) {
        None => body,
        Some(i) => body.subrange(0, i),
    }
}

/// Where routing a request leads.
pub open spec fn sp_route(req: RequestModel) -> ActionModel {
    let segs = sp_split(req.path, sp_slash());
    if segs.len() < 2 {
        ActionModel::Respond(sp_not_found())
    } else if segs[1] == Seq::<u8>::empty() {
        ActionModel::Respond(
            ResponseModel { status: Status::Okay, body: BodyModel::Bare(Seq::<u8>::empty()) },
        )
    } else if segs[1] == sp_key_user_agent() {
        match req.user_agent {
            Some(u) => ActionModel::Respond(
                ResponseModel {
                    status: Status::Okay,
                    body: BodyModel::Text { content: u, encoding: None },
                },
            ),
            None => ActionModel::Respond(sp_not_found()),
        }
    } else if segs[1] == sp_seg_echo() {
        if segs.len() < 3 {
            ActionModel::Respond(sp_not_found())
        } else {
            ActionModel::Respond(
                ResponseModel {
                    status: Status::Okay,
                    body: BodyModel::Text { content: segs[2], encoding: req.accept_encoding },
                },
            )
        }
    } else if segs[1] == sp_seg_files() {
        if segs.len() < 3 {
            ActionModel::Respond(sp_not_found())
        } else {
            match req.method {
                Method::Get => ActionModel::ReadFile { name: segs[2] },
                Method::Post => match req.body {
                    Some(b) => ActionModel::WriteFile {
                        name: segs[2],
                        content: sp_write_content(b),
                    },
                    None => ActionModel::Respond(sp_not_found()),
                },
            }
        }
    } else {
        ActionModel::Respond(sp_not_found())
    }
}

/// Routes a parsed request.
pub fn route(req: &Request) -> (a: Action)
    ensures
        a@ == sp_route(req@),
{
    let slash = lit_slash();
    let segs = split_bytes(req.path.as_slice(), slash.as_slice());
    proof {
        assert(segs.deep_view() == sp_split(req@.path, sp_slash()));
    }
    if segs.len() < 2 {
        return Action::Respond(Response::bare(Status::NotFound));
    }
    proof {
        assert(segs@[1].deep_view() =~= segs@[1]@);
        assert(segs.deep_view()[1] == segs@[1]@);
    }
    if segs[1].len() == 0 {
        proof {
            assert(segs@[1]@ =~= Seq::<u8>::empty());
        }
        return Action::Respond(Response::bare(Status::Okay));
    }
    if bytes_eq(segs[1].as_slice(), lit_key_user_agent().as_slice()) {
        return match &req.user_agent {
            Some(u) => Action::Respond({
                proof {
                    assert(u.deep_view() =~= u@);
                }
                Response {
                    status: Status::Okay,
                    body: ResponseBody::Text {
                        content: vstd::slice::slice_to_vec(u.as_slice()),
                        encoding: None,
                    },
                }
            }),
            None => Action::Respond(Response::bare(Status::NotFound)),
        };
    }
    if bytes_eq(segs[1].as_slice(), lit_seg_echo().as_slice()) {
        if segs.len() < 3 {
            return Action::Respond(Response::bare(Status::NotFound));
        }
        proof {
            assert(segs@[2].deep_view() =~= segs@[2]@);
            assert(segs.deep_view()[2] == segs@[2]@);
        }
        let message = vstd::slice::slice_to_vec(segs[2].as_slice());
        let encoding = match &req.accept_encoding {
            Some(e) => {
                proof {
                    assert(e.deep_view() =~= e@);
                }
                Some(vstd::slice::slice_to_vec(e.as_slice()))
            },
            None => None,
        };
        proof {
            assert(encoding.deep_view() == req@.accept_encoding);
        }
        return Action::Respond(
            Response { status: Status::Okay, body: ResponseBody::Text { content: message, encoding } },
        );
    }
    if bytes_eq(segs[1].as_slice(), lit_seg_files().as_slice()) {
        if segs.len() < 3 {
            return Action::Respond(Response::bare(Status::NotFound));
        }
        proof {
            assert(segs@[2].deep_view() =~= segs@[2]@);
            assert(segs.deep_view()[2] == segs@[2]@);
        }
        let name = vstd::slice::slice_to_vec(segs[2].as_slice());
        return match req.method {
            Method::Get => Action::ReadFile { name },
            Method::Post => match &req.body {
                Some(b) => {
                    let cr: Vec<u8> = vec![13u8];
                    proof {
                        assert(cr@ =~= seq![13u8]);
                        assert(b.deep_view() =~= b@);
                    }
                    let content = match find_from(b.as_slice(), cr.as_slice(), 0) {
                        None => vstd::slice::slice_to_vec(b.as_slice()),
                        Some(i) => {
                            proof {
                                lemma_find_from(b@, seq![13u8], 0);
                            }
                            vstd::slice::slice_to_vec(
                                vstd::slice::slice_subrange(b.as_slice(), 0, i),
                            )
                        },
                    };
                    Action::WriteFile { name, content }
                },
                None => Action::Respond(Response::bare(Status::NotFound)),
            },
        };
    }
    Action::Respond(Response::bare(Status::NotFound))
}

/// What a file read turns into: the bytes as a binary `200`, or a bare `404`
/// when the read failed.
pub open spec fn sp_file_read_response(contents: Option<Seq<u8>>) -> ResponseModel {
    match contents {
        Some(b) => ResponseModel { status: Status::Okay, body: BodyModel::Binary(b) },
        None => sp_not_found(),
    }
}

/// Builds the response for a file read, from its outcome.
pub fn file_read_response(contents: Option<Vec<u8>>) -> (r: Response)
    ensures
        r@ == sp_file_read_response(contents.deep_view()),
{
    match contents {
        Some(b) => {
            proof {
                assert(b.deep_view() =~= b@);
            }
            Response { status: Status::Okay, body: ResponseBody::Binary(b) }
        },
        None => Response::bare(Status::NotFound),
    }
}

/// What a file write turns into: a bare `201` on success, a bare `404` on
/// failure.
pub open spec fn sp_file_write_response(ok: bool) -> ResponseModel {
    if ok {
        ResponseModel { status: Status::Created, body: BodyModel::Bare(Seq::<u8>::empty()) }
    } else {
        sp_not_found()
    }
}

/// Builds the response for a file write, from its outcome.
pub fn file_write_response(ok: bool) -> (r: Response)
    ensures
        r@ == sp_file_write_response(ok),
{
    if ok {
        Response::bare(Status::Created)
    } else {
        Response::bare(Status::NotFound)
    }
}

} // verus!
