//! Building and serializing HTTP/1.1 responses.
//!
//! Three body shapes exist: a bare response (no `Content-*` headers; its bytes,
//! usually none, follow the blank line directly), a text response
//! (`Content-Type: text/plain`, optionally preceded by a negotiated
//! `Content-Encoding`), and a binary response
//! (`Content-Type: application/octet-stream`). `Content-Length` is always the
//! actual body byte length.

use vstd::prelude::*;
use crate::bytes::push_all;
use crate::numbers::{dec_repr, sp_dec_repr};
use crate::text::{
    lit_crlf, lit_hdr_ce, lit_hdr_cl, lit_hdr_ct_octet, lit_hdr_ct_text, lit_line_bad_request,
    lit_line_created, lit_line_not_found, lit_line_ok, sp_crlf, sp_hdr_ce, sp_hdr_cl,
    sp_hdr_ct_octet, sp_hdr_ct_text, sp_line_bad_request, sp_line_created, sp_line_not_found,
    sp_line_ok,
};

verus! {

#[derive(Clone, Copy, PartialEq, Eq, Structural, Debug)]
pub enum Status {
    Okay,
    Created,
    BadRequest,
    NotFound,
}

/// Model of a response body.
pub enum BodyModel {
    Bare(Seq<u8>),
    Text { content: Seq<u8>, encoding: Option<Seq<u8>> },
    Binary(Seq<u8>),
}

/// Model of a response.
pub struct ResponseModel {
    pub status: Status,
    pub body: BodyModel,
}

/// A response about to be serialized.
pub enum ResponseBody {
    Bare(Vec<u8>),
    Text { content: Vec<u8>, encoding: Option<Vec<u8>> },
    Binary(Vec<u8>),
}

pub struct Response {
    pub status: Status,
    pub body: ResponseBody,
}

impl View for Response {
    type V = ResponseModel;

    open spec fn view(&self) -> ResponseModel {
        ResponseModel {
            status: self.status,
            body: match self.body {
                ResponseBody::Bare(b) => BodyModel::Bare(b@),
                ResponseBody::Text { content, encoding } => BodyModel::Text {
                    content: content@,
                    encoding: encoding.deep_view(),
                },
                ResponseBody::Binary(b) => BodyModel::Binary(b@),
            },
        }
    }
}

/// The status line, `HTTP/1.1` against the code, `\r\n`-terminated.
pub open spec fn sp_status_line(s: Status) -> Seq<u8> {
    match s {
        Status::Okay => sp_line_ok(),
        Status::Created => sp_line_created(),
        Status::BadRequest => sp_line_bad_request(),
        Status::NotFound => sp_line_not_found(),
    }
}

/// The bytes that follow the blank line: the body itself.
pub open spec fn sp_body_bytes(r: ResponseModel) -> Seq<u8> {
    match r.body {
        BodyModel::Bare(b) => b,
        BodyModel::Text { content, .. } => content,
        BodyModel::Binary(b) => b,
    }
}

/// The full wire form of a response: status line, headers (none for a bare
/// response; `Content-Encoding` when negotiated, then `Content-Type`, then
/// `Content-Length` computed from the body), a blank line, then the body.
pub open spec fn sp_serialize(r: ResponseModel) -> Seq<u8> {
    sp_status_line(r.status) + match r.body {
        BodyModel::Bare(b) => sp_crlf() + b,
        BodyModel::Text { content, encoding } => (match encoding {
            Some(e) => sp_hdr_ce() + e + sp_crlf(),
            None => Seq::<u8>::empty(),
        }) + sp_hdr_ct_text() + sp_hdr_cl() + sp_dec_repr(content.len()) + sp_crlf() + sp_crlf()
            + content,
        BodyModel::Binary(b) => sp_hdr_ct_octet() + sp_hdr_cl() + sp_dec_repr(b.len()) + sp_crlf()
            + sp_crlf() + b,
    }
}

impl Response {
    /// Serializes the response for the wire.
    #[verifier::rlimit(60)]
    pub fn serialize(&self) -> (r: Vec<u8>)
        ensures
            r@ == sp_serialize(self@),
    {
        let mut out: Vec<u8> = Vec::new();
        let status_line = match self.status {
            Status::Okay => lit_line_ok(),
            Status::Created => lit_line_created(),
            Status::BadRequest => lit_line_bad_request(),
            Status::NotFound => lit_line_not_found(),
        };
        push_all(&mut out, status_line.as_slice());
        match &self.body {
            ResponseBody::Bare(b) => {
                let crlf = lit_crlf();
                push_all(&mut out, crlf.as_slice());
                push_all(&mut out, b.as_slice());
                proof {
                    assert(out@ =~= sp_serialize(self@));
                }
            },
            ResponseBody::Text { content, encoding } => {
                match encoding {
                    Some(e) => {
                        let ce = lit_hdr_ce();
                        push_all(&mut out, ce.as_slice());
                        push_all(&mut out, e.as_slice());
                        let crlf = lit_crlf();
                        push_all(&mut out, crlf.as_slice());
                    },
                    None => {},
                }
                let ct = lit_hdr_ct_text();
                push_all(&mut out, ct.as_slice());
                let cl = lit_hdr_cl();
                push_all(&mut out, cl.as_slice());
                let len_digits = dec_repr(content.len());
                push_all(&mut out, len_digits.as_slice());
                let crlf = lit_crlf();
                push_all(&mut out, crlf.as_slice());
                let crlf2 = lit_crlf();
                push_all(&mut out, crlf2.as_slice());
                push_all(&mut out, content.as_slice());
                proof {
                    assert(out@ =~= sp_serialize(self@));
                }
            },
            ResponseBody::Binary(b) => {
                let ct = lit_hdr_ct_octet();
                push_all(&mut out, ct.as_slice());
                let cl = lit_hdr_cl();
                push_all(&mut out, cl.as_slice());
                let len_digits = dec_repr(b.len());
                push_all(&mut out, len_digits.as_slice());
                let crlf = lit_crlf();
                push_all(&mut out, crlf.as_slice());
                let crlf2 = lit_crlf();
                push_all(&mut out, crlf2.as_slice());
                push_all(&mut out, b.as_slice());
                proof {
                    assert(out@ =~= sp_serialize(self@));
                }
            },
        }
        out
    }

    /// A response of a status alone, with no headers and no body.
    pub fn bare(status: Status) -> (r: Response)
        ensures
            r@ == (ResponseModel { status, body: BodyModel::Bare(Seq::<u8>::empty()) }),
    {
        let r = Response { status, body: ResponseBody::Bare(Vec::new()) };
        proof {
            assert(sp_body_bytes(r@) =~= Seq::<u8>::empty());
        }
        r
    }
}

} // verus!
