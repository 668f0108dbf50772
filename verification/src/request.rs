//! Decoding one HTTP/1.1 request from the bytes read off a connection.
//!
//! The byte stream is cut at the first `\r\n\r\n`: what precedes it is the
//! request line and the header block, what follows it (when non-empty) is the
//! body, taken verbatim. The request line must hold at least two
//! space-separated tokens — the method, which must be `GET` or `POST`, and the
//! path. Header lines are split at the first `": "`; lines without one are
//! skipped, and only the five recognized keys are kept, matched without regard
//! to ASCII case, the last occurrence winning. A `Content-Length` value that
//! is not a plain decimal number fitting `usize` is ignored.

use vstd::prelude::*;
use crate::bytes::{
    bytes_eq, find_from, lemma_find_from, lower_bytes, sp_find_from, sp_lower, sp_split,
    split_bytes,
};
use crate::numbers::{parse_usize, sp_parse_usize};
use crate::text::{
    lit_colon_space, lit_crlf, lit_crlfcrlf, lit_get, lit_post, lit_space, sp_colon_space,
    sp_crlf, sp_crlfcrlf, sp_get, sp_key_accept_encoding, sp_key_content_encoding,
    sp_key_content_length, sp_key_content_type, sp_key_user_agent, sp_post, sp_space,
    lit_key_accept_encoding, lit_key_content_encoding, lit_key_content_length,
    lit_key_content_type, lit_key_user_agent,
};

verus! {

#[derive(Clone, Copy, PartialEq, Eq, Structural, Debug)]
pub enum Method {
    Get,
    Post,
}

/// Mathematical model of a parsed request.
pub struct RequestModel {
    pub method: Method,
    pub path: Seq<u8>,
    pub user_agent: Option<Seq<u8>>,
    pub accept_encoding: Option<Seq<u8>>,
    pub content_encoding: Option<Seq<u8>>,
    pub content_type: Option<Seq<u8>>,
    pub content_length: Option<usize>,
    pub body: Option<Seq<u8>>,
}

/// A parsed request: method, raw path, the recognized headers, and the body.
pub struct Request {
    pub method: Method,
    pub path: Vec<u8>,
    pub user_agent: Option<Vec<u8>>,
    pub accept_encoding: Option<Vec<u8>>,
    pub content_encoding: Option<Vec<u8>>,
    pub content_type: Option<Vec<u8>>,
    pub content_length: Option<usize>,
    pub body: Option<Vec<u8>>,
}

impl View for Request {
    type V = RequestModel;

    open spec fn view(&self) -> RequestModel {
        RequestModel {
            method: self.method,
            path: self.path@,
            user_agent: self.user_agent.deep_view(),
            accept_encoding: self.accept_encoding.deep_view(),
            content_encoding: self.content_encoding.deep_view(),
            content_type: self.content_type.deep_view(),
            content_length: self.content_length,
            body: self.body.deep_view(),
        }
    }
}

/// Why a byte stream failed to parse as a request.
pub enum ParseError {
    /// The request line holds fewer than two space-separated tokens.
    MalformedRequest,
    /// The method token, carried here, is neither `GET` nor `POST`.
    UnsupportedMethod(Vec<u8>),
}

/// Model of a parse failure.
pub enum ParseErrorModel {
    MalformedRequest,
    UnsupportedMethod(Seq<u8>),
}

impl View for ParseError {
    type V = ParseErrorModel;

    open spec fn view(&self) -> ParseErrorModel {
        match self {
            ParseError::MalformedRequest => ParseErrorModel::MalformedRequest,
            ParseError::UnsupportedMethod(t) => ParseErrorModel::UnsupportedMethod(t@),
        }
    }
}

/// The recognized headers, as left by the lines seen so far.
pub struct HeaderFields {
    pub user_agent: Option<Seq<u8>>,
    pub accept_encoding: Option<Seq<u8>>,
    pub content_encoding: Option<Seq<u8>>,
    pub content_type: Option<Seq<u8>>,
    pub content_length: Option<usize>,
}

pub open spec fn sp_no_headers() -> HeaderFields {
    HeaderFields {
        user_agent: None,
        accept_encoding: None,
        content_encoding: None,
        content_type: None,
        content_length: None,
    }
}

/// How one header line changes the recognized fields: the line is split at its
/// first `": "`; an absent separator or an unrecognized (ASCII-lowercased) key
/// leaves the fields as they were.
pub open spec fn sp_apply_header(h: HeaderFields, line: Seq<u8>) -> HeaderFields {
    match sp_find_from(line, sp_colon_space(), 0) {
        None => h,
        Some(i) => {
            let key = sp_lower(line.subrange(0, i));
            let value = line.subrange(i + 2, line.len() as int);
            if key == sp_key_user_agent() {
                HeaderFields { user_agent: Some(value), ..h }
            } else if key == sp_key_accept_encoding() {
                HeaderFields { accept_encoding: Some(value), ..h }
            } else if key == sp_key_content_encoding() {
                HeaderFields { content_encoding: Some(value), ..h }
            } else if key == sp_key_content_type() {
                HeaderFields { content_type: Some(value), ..h }
            } else if key == sp_key_content_length() {
                match sp_parse_usize(value) {
                    Some(n) => HeaderFields { content_length: Some(n), ..h },
                    None => h,
                }
            } else {
                h
            }
        },
    }
}

/// The fields after all of `lines`, in order, first to last.
pub open spec fn sp_headers(lines: Seq<Seq<u8>>) -> HeaderFields
    decreases lines.len(),
{
    if lines.len() == 0 {
        sp_no_headers()
    } else {
        sp_apply_header(sp_headers(lines.drop_last()), lines.last())
    }
}

/// The part of the stream before the first `\r\n\r\n` (all of it when there is
/// none).
pub open spec fn sp_head(input: Seq<u8>) -> Seq<u8> {
    match sp_find_from(input, sp_crlfcrlf(), 0) {
        None => input,
        Some(i) => input.subrange(0, i),
    }
}

/// The body: what follows the first `\r\n\r\n`, verbatim; absent when there is
/// no separator or nothing follows it.
pub open spec fn sp_body(input: Seq<u8>) -> Option<Seq<u8>> {
    match sp_find_from(input, sp_crlfcrlf(), 0) {
        None => None,
        Some(i) => {
            let rest = input.subrange(i + 4, input.len() as int);
            if rest.len() == 0 {
                None
            } else {
                Some(rest)
            }
        },
    }
}

/// What parsing `input` yields, in full.
pub open spec fn sp_parse(input: Seq<u8>) -> Result<RequestModel, ParseErrorModel> {
    let lines = sp_split(sp_head(input), sp_crlf());
    let tokens = sp_split(lines[0], sp_space());
    if tokens.len() < 2 {
        Err(ParseErrorModel::MalformedRequest)
    } else if tokens[0] != sp_get() && tokens[0] != sp_post() {
        Err(ParseErrorModel::UnsupportedMethod(tokens[0]))
    } else {
        let h = sp_headers(lines.subrange(1, lines.len() as int));
        Ok(RequestModel {
            method: if tokens[0] == sp_get() { Method::Get } else { Method::Post },
            path: tokens[1],
            user_agent: h.user_agent,
            accept_encoding: h.accept_encoding,
            content_encoding: h.content_encoding,
            content_type: h.content_type,
            content_length: h.content_length,
            body: sp_body(input),
        })
    }
}

/// Applies one header line to the five mutable fields.
fn apply_header(req: &mut Request, line: &[u8])
    ensures
        final(req)@ == (RequestModel {
            user_agent: sp_apply_header(old(req)@.headers(), line@).user_agent,
            accept_encoding: sp_apply_header(old(req)@.headers(), line@).accept_encoding,
            content_encoding: sp_apply_header(old(req)@.headers(), line@).content_encoding,
            content_type: sp_apply_header(old(req)@.headers(), line@).content_type,
            content_length: sp_apply_header(old(req)@.headers(), line@).content_length,
            ..old(req)@
        }),
{
    let sep = lit_colon_space();
    match find_from(line, sep.as_slice(), 0) {
        None => {},
        Some(i) => {
            proof {
                lemma_find_from(line@, sp_colon_space(), 0);
            }
            let n = line.len();
            let key = lower_bytes(vstd::slice::slice_subrange(line, 0, i));
            let value = vstd::slice::slice_to_vec(vstd::slice::slice_subrange(line, i + 2, n));
            proof {
                assert(value.deep_view() =~= value@);
            }
            if bytes_eq(key.as_slice(), lit_key_user_agent().as_slice()) {
                req.user_agent = Some(value);
            } else if bytes_eq(key.as_slice(), lit_key_accept_encoding().as_slice()) {
                req.accept_encoding = Some(value);
            } else if bytes_eq(key.as_slice(), lit_key_content_encoding().as_slice()) {
                req.content_encoding = Some(value);
            } else if bytes_eq(key.as_slice(), lit_key_content_type().as_slice()) {
                req.content_type = Some(value);
            } else if bytes_eq(key.as_slice(), lit_key_content_length().as_slice()) {
                match parse_usize(value.as_slice()) {
                    Some(n) => {
                        req.content_length = Some(n);
                    },
                    None => {},
                }
            }
        },
    }
}

impl RequestModel {
    /// The header fields of this request, gathered.
    pub open spec fn headers(self) -> HeaderFields {
        HeaderFields {
            user_agent: self.user_agent,
            accept_encoding: self.accept_encoding,
            content_encoding: self.content_encoding,
            content_type: self.content_type,
            content_length: self.content_length,
        }
    }
}

impl Request {
    /// Parses one request from the raw bytes read off a connection.
    pub fn parse(input: &[u8]) -> (r: Result<Request, ParseError>)
        ensures
            match r {
                Ok(req) => sp_parse(input@) == Ok::<RequestModel, ParseErrorModel>(req@),
                Err(e) => sp_parse(input@) == Err::<RequestModel, ParseErrorModel>(e@),
            },
    {
        let crlfcrlf = lit_crlfcrlf();
        let (head, body): (Vec<u8>, Option<Vec<u8>>) = match find_from(
            input,
            crlfcrlf.as_slice(),
            0,
        ) {
            None => (vstd::slice::slice_to_vec(input), None),
            Some(i) => {
                proof {
                    lemma_find_from(input@, sp_crlfcrlf(), 0);
                }
                let n = input.len();
                let rest = vstd::slice::slice_to_vec(vstd::slice::slice_subrange(input, i + 4, n));
                let head = vstd::slice::slice_to_vec(vstd::slice::slice_subrange(input, 0, i));
                if rest.len() == 0 {
                    (head, None)
                } else {
                    proof {
                        assert(rest.deep_view() =~= rest@);
                    }
                    (head, Some(rest))
                }
            },
        };
        proof {
            assert(head@ == sp_head(input@));
            assert(body.deep_view() == sp_body(input@));
        }
        let crlf = lit_crlf();
        let lines = split_bytes(head.as_slice(), crlf.as_slice());
        let space = lit_space();
        let tokens = split_bytes(lines[0].as_slice(), space.as_slice());
        proof {
            assert(lines@[0].deep_view() =~= lines@[0]@);
            assert(lines.deep_view()[0] == lines@[0]@);
            assert(tokens.deep_view() == sp_split(
                sp_split(sp_head(input@), sp_crlf())[0],
                sp_space(),
            ));
            assert(tokens.deep_view().len() == tokens@.len());
        }
        if tokens.len() < 2 {
            return Err(ParseError::MalformedRequest);
        }
        proof {
            assert(tokens@[0].deep_view() =~= tokens@[0]@);
            assert(tokens.deep_view()[0] == tokens@[0]@);
            assert(tokens@[1].deep_view() =~= tokens@[1]@);
            assert(tokens.deep_view()[1] == tokens@[1]@);
        }
        let is_get = bytes_eq(tokens[0].as_slice(), lit_get().as_slice());
        let is_post = bytes_eq(tokens[0].as_slice(), lit_post().as_slice());
        if !is_get && !is_post {
            let token = vstd::slice::slice_to_vec(tokens[0].as_slice());
            return Err(ParseError::UnsupportedMethod(token));
        }
        let mut req = Request {
            method: if is_get { Method::Get } else { Method::Post },
            path: vstd::slice::slice_to_vec(tokens[1].as_slice()),
            user_agent: None,
            accept_encoding: None,
            content_encoding: None,
            content_type: None,
            content_length: None,
            body,
        };
        let ghost lines_model = lines.deep_view();
        let ghost fixed = req@;
        proof {
            assert(sp_headers(lines_model.subrange(1, 1)) == sp_no_headers()) by {
                assert(lines_model.subrange(1, 1) =~= Seq::<Seq<u8>>::empty());
            }
        }
        let mut j: usize = 1;
        while j < lines.len()
            invariant
                1 <= j <= lines@.len(),
                lines.deep_view() == lines_model,
                lines_model.len() == lines@.len(),
                req@.headers() == sp_headers(lines_model.subrange(1, j as int)),
                req@.method == fixed.method,
                req@.path == fixed.path,
                req@.body == fixed.body,
            decreases lines@.len() - j,
        {
            let ghost before = req@.headers();
            apply_header(&mut req, lines[j].as_slice());
            proof {
                assert(lines@[j as int].deep_view() =~= lines@[j as int]@);
                assert(lines_model[j as int] == lines@[j as int]@);
                assert(lines_model.subrange(1, j + 1).drop_last() =~= lines_model.subrange(
                    1,
                    j as int,
                ));
                assert(lines_model.subrange(1, j + 1).last() == lines_model[j as int]);
                assert(req@.headers() == sp_apply_header(before, lines_model[j as int]));
            }
            j += 1;
        }
        proof {
            assert(lines_model.subrange(1, j as int) == lines_model.subrange(
                1,
                lines_model.len() as int,
            ));
        }
        Ok(req)
    }
}

} // verus!
