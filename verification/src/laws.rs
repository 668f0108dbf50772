//! The protocol engine's laws: what parsing, routing and serialization
//! guarantee together, proved once and for all inputs.

use vstd::prelude::*;
use crate::bytes::{lemma_find_from, lemma_find_is, lemma_split_at_first, lemma_split_none,
    match_at, sp_find_from, sp_lower, sp_split};
use crate::request::{Method, RequestModel, sp_head, sp_headers, sp_parse};
use crate::response::{BodyModel, ResponseModel, Status, sp_body_bytes, sp_serialize};
use crate::router::{ActionModel, sp_file_read_response, sp_not_found, sp_route,
    sp_write_content};
use crate::text::{sp_colon_space, sp_crlf, sp_crlfcrlf, sp_get, sp_hdr_cl, sp_hdr_ct_text,
    sp_key_user_agent, sp_line_not_found, sp_line_ok, sp_post, sp_seg_echo, sp_seg_files,
    sp_slash, sp_space, sp_user_agent_name};
use crate::numbers::sp_dec_repr;

verus! {

/// A sequence without byte `b` has no occurrence of the one-byte separator
/// `[b]`.
proof fn lemma_no_byte_no_match(s: Seq<u8>, b: u8)
    requires
        forall|i: int| 0 <= i < s.len() ==> s[i] != b,
    ensures
        forall|j: int| !match_at(s, seq![b], j),
{
    assert forall|j: int| !match_at(s, seq![b], j) by {
        if 0 <= j && j + 1 <= s.len() {
            if s.subrange(j, j + 1) == seq![b] {
                assert(s.subrange(j, j + 1)[0] == s[j]);
            }
        }
    }
}

/// A sequence without a carriage return has no occurrence of any separator
/// that starts with one.
proof fn lemma_no_cr_no_match(s: Seq<u8>, sep: Seq<u8>)
    requires
        sep.len() >= 1,
        sep[0] == 13,
        forall|i: int| 0 <= i < s.len() ==> s[i] != 13,
    ensures
        forall|j: int| !match_at(s, sep, j),
{
    assert forall|j: int| !match_at(s, sep, j) by {
        if 0 <= j && j + sep.len() <= s.len() {
            if s.subrange(j, j + sep.len() as int) == sep {
                assert(s.subrange(j, j + sep.len() as int)[0] == s[j]);
            }
        }
    }
}

/// Splitting `/seg…` on `/`: the first piece is empty and the second is `seg`,
/// whatever follows a further `/`.
proof fn lemma_path_first_segment(seg: Seq<u8>, rest: Seq<u8>)
    requires
        forall|i: int| 0 <= i < seg.len() ==> seg[i] != 47,
        rest.len() == 0 || rest[0] == 47,
    ensures
        ({
            let segs = sp_split(seq![47u8] + seg + rest, sp_slash());
            segs.len() >= 2 && segs[0] == Seq::<u8>::empty() && segs[1] == seg
        }),
{
    let s = seq![47u8] + seg + rest;
    assert(match_at(s, sp_slash(), 0)) by {
        assert(s.subrange(0, 1) =~= sp_slash());
    }
    lemma_split_at_first(s, sp_slash(), 0);
    let inner = s.subrange(1, s.len() as int);
    assert(inner =~= seg + rest);
    if rest.len() == 0 {
        assert(inner =~= seg);
        lemma_no_byte_no_match(inner, 47);
        lemma_split_none(inner, sp_slash());
    } else {
        assert(match_at(inner, sp_slash(), seg.len() as int)) by {
            assert(inner.subrange(seg.len() as int, seg.len() as int + 1) =~= sp_slash());
        }
        assert forall|j: int| 0 <= j < seg.len() implies !match_at(inner, sp_slash(), j) by {
            if match_at(inner, sp_slash(), j) {
                assert(inner.subrange(j, j + 1)[0] == inner[j]);
            }
        }
        lemma_split_at_first(inner, sp_slash(), seg.len() as int);
        assert(inner.subrange(0, seg.len() as int) =~= seg);
    }
}

/// Splitting `/seg1/seg2` on `/` yields exactly the empty piece, `seg1` and
/// `seg2`.
proof fn lemma_path_two_segments(seg1: Seq<u8>, seg2: Seq<u8>)
    requires
        forall|i: int| 0 <= i < seg1.len() ==> seg1[i] != 47,
        forall|i: int| 0 <= i < seg2.len() ==> seg2[i] != 47,
    ensures
        ({
            let segs = sp_split(seq![47u8] + seg1 + seq![47u8] + seg2, sp_slash());
            segs =~= seq![Seq::<u8>::empty(), seg1, seg2]
        }),
{
    let s = seq![47u8] + seg1 + seq![47u8] + seg2;
    assert(match_at(s, sp_slash(), 0)) by {
        assert(s.subrange(0, 1) =~= sp_slash());
    }
    lemma_split_at_first(s, sp_slash(), 0);
    let inner = s.subrange(1, s.len() as int);
    assert(inner =~= seg1 + seq![47u8] + seg2);
    assert(match_at(inner, sp_slash(), seg1.len() as int)) by {
        assert((seg1 + seq![47u8] + seg2).subrange(seg1.len() as int, seg1.len() as int + 1)
            =~= sp_slash());
    }
    assert forall|j: int| 0 <= j < seg1.len() implies !match_at(inner, sp_slash(), j) by {
        if match_at(inner, sp_slash(), j) {
            assert(inner.subrange(j, j + 1)[0] == inner[j]);
        }
    }
    lemma_split_at_first(inner, sp_slash(), seg1.len() as int);
    assert(inner.subrange(0, seg1.len() as int) =~= seg1);
    let tail = inner.subrange(seg1.len() as int + 1, inner.len() as int);
    assert(tail =~= seg2);
    lemma_no_byte_no_match(seg2, 47);
    lemma_split_none(seg2, sp_slash());
    assert(s.subrange(0, 0) =~= Seq::<u8>::empty());
}

/// Splitting the request line `m SP p tail` on spaces recovers `m` and `p` as
/// the first two tokens, when `p` holds no space and `tail` is empty or opens
/// with one.
proof fn lemma_request_line_tokens(m: Seq<u8>, p: Seq<u8>, tail: Seq<u8>)
    requires
        m == sp_get() || m == sp_post(),
        forall|i: int| 0 <= i < p.len() ==> p[i] != 32,
        tail.len() == 0 || tail[0] == 32,
    ensures
        ({
            let tokens = sp_split(m + seq![32u8] + p + tail, sp_space());
            tokens.len() >= 2 && tokens[0] == m && tokens[1] == p
        }),
{
    let rl = m + seq![32u8] + p + tail;
    assert(forall|i: int| 0 <= i < m.len() ==> m[i] != 32);
    assert(match_at(rl, sp_space(), m.len() as int)) by {
        assert(rl.subrange(m.len() as int, m.len() as int + 1) =~= sp_space());
    }
    assert forall|j: int| 0 <= j < m.len() implies !match_at(rl, sp_space(), j) by {
        if match_at(rl, sp_space(), j) {
            assert(rl.subrange(j, j + 1)[0] == rl[j]);
        }
    }
    lemma_split_at_first(rl, sp_space(), m.len() as int);
    assert(rl.subrange(0, m.len() as int) =~= m);
    let inner = rl.subrange(m.len() as int + 1, rl.len() as int);
    assert(inner =~= p + tail);
    if tail.len() == 0 {
        assert(inner =~= p);
        lemma_no_byte_no_match(inner, 32);
        lemma_split_none(inner, sp_space());
    } else {
        assert(match_at(inner, sp_space(), p.len() as int)) by {
            assert((p + tail).subrange(p.len() as int, p.len() as int + 1) =~= sp_space());
        }
        assert forall|j: int| 0 <= j < p.len() implies !match_at(inner, sp_space(), j) by {
            if match_at(inner, sp_space(), j) {
                assert(inner.subrange(j, j + 1)[0] == inner[j]);
            }
        }
        lemma_split_at_first(inner, sp_space(), p.len() as int);
        assert(inner.subrange(0, p.len() as int) =~= p);
    }
}

/// The first line of the head — what precedes the first `\r\n\r\n` — is the
/// request line itself, when the line holds no `\r` and the rest of the stream
/// is empty or opens with `\r\n`.
proof fn lemma_head_first_line(rl: Seq<u8>, suffix: Seq<u8>)
    requires
        forall|i: int| 0 <= i < rl.len() ==> rl[i] != 13,
        suffix.len() == 0 || (suffix.len() >= 2 && suffix[0] == 13 && suffix[1] == 10),
    ensures
        ({
            let lines = sp_split(sp_head(rl + suffix), sp_crlf());
            lines[0] == rl
        }),
{
    let input = rl + suffix;
    lemma_find_from(input, sp_crlfcrlf(), 0);
    assert(forall|i: int| 0 <= i < rl.len() ==> input[i] == rl[i]);
    match sp_find_from(input, sp_crlfcrlf(), 0) {
        None => {
            assert(sp_head(input) == input);
            if suffix.len() == 0 {
                assert(input =~= rl);
                lemma_no_cr_no_match(rl, sp_crlf());
                lemma_split_none(rl, sp_crlf());
            } else {
                assert(match_at(input, sp_crlf(), rl.len() as int)) by {
                    assert(input.subrange(rl.len() as int, rl.len() as int + 2) =~= sp_crlf());
                }
                assert forall|j: int| 0 <= j < rl.len() implies !match_at(input, sp_crlf(), j) by {
                    if match_at(input, sp_crlf(), j) {
                        assert(input.subrange(j, j + 2)[0] == input[j]);
                    }
                }
                lemma_split_at_first(input, sp_crlf(), rl.len() as int);
                assert(input.subrange(0, rl.len() as int) =~= rl);
            }
        },
        Some(i) => {
            assert(input.subrange(i, i + 4)[0] == input[i]);
            assert(input[i] == 13);
            assert(i >= rl.len());
            let head = input.subrange(0, i);
            assert(sp_head(input) == head);
            assert(forall|j: int| 0 <= j < head.len() && j < rl.len() ==> head[j] == rl[j]);
            if i == rl.len() {
                assert(head =~= rl);
                lemma_no_cr_no_match(rl, sp_crlf());
                lemma_split_none(rl, sp_crlf());
            } else {
                assert(suffix.len() >= 2);
                if i == rl.len() as int + 1 {
                    assert(input[i] == suffix[1]);
                    assert(false);
                }
                assert(i >= rl.len() as int + 2);
                assert(match_at(head, sp_crlf(), rl.len() as int)) by {
                    assert(head[rl.len() as int] == suffix[0]);
                    assert(head[rl.len() as int + 1] == suffix[1]);
                    assert(head.subrange(rl.len() as int, rl.len() as int + 2) =~= sp_crlf());
                }
                assert forall|j: int| 0 <= j < rl.len() implies !match_at(head, sp_crlf(), j) by {
                    if match_at(head, sp_crlf(), j) {
                        assert(head.subrange(j, j + 2)[0] == head[j]);
                    }
                }
                lemma_split_at_first(head, sp_crlf(), rl.len() as int);
                assert(head.subrange(0, rl.len() as int) =~= rl);
            }
        },
    }
}

/// Parsing recovers the request line: any stream whose first line is
/// `m SP p [tail]` — `m` one of `GET`/`POST`, `p` free of spaces and carriage
/// returns — parses successfully to exactly that method and path, whatever
/// headers and body follow.
pub proof fn lemma_parse_recovers_request_line(
    m: Seq<u8>,
    p: Seq<u8>,
    tail: Seq<u8>,
    suffix: Seq<u8>,
)
    requires
        m == sp_get() || m == sp_post(),
        forall|i: int| 0 <= i < p.len() ==> p[i] != 32,
        forall|i: int| 0 <= i < p.len() ==> p[i] != 13,
        tail.len() == 0 || tail[0] == 32,
        forall|i: int| 0 <= i < tail.len() ==> tail[i] != 13,
        suffix.len() == 0 || (suffix.len() >= 2 && suffix[0] == 13 && suffix[1] == 10),
    ensures
        ({
            let r = sp_parse(m + seq![32u8] + p + tail + suffix);
            &&& r is Ok
            &&& r->Ok_0.method == (if m == sp_get() {
                Method::Get
            } else {
                Method::Post
            })
            &&& r->Ok_0.path == p
        }),
{
    let rl = m + seq![32u8] + p + tail;
    assert(forall|i: int| 0 <= i < m.len() ==> m[i] != 13);
    assert(forall|i: int| 0 <= i < rl.len() ==> rl[i] != 13);
    lemma_head_first_line(rl, suffix);
    assert(rl + suffix == m + seq![32u8] + p + tail + suffix);
    lemma_request_line_tokens(m, p, tail);
}

/// A header block whose last line is `User-Agent: u` parses to a request that
/// carries exactly `u` as its user agent, whatever lines precede it.
pub proof fn lemma_user_agent_line_recognized(lines: Seq<Seq<u8>>, u: Seq<u8>)
    ensures
        sp_headers(lines.push(sp_user_agent_name() + sp_colon_space() + u)).user_agent == Some(u),
{
    let line = sp_user_agent_name() + sp_colon_space() + u;
    assert(lines.push(line).drop_last() =~= lines);
    assert(lines.push(line).last() == line);
    assert(match_at(line, sp_colon_space(), 10)) by {
        assert(line.subrange(10, 12) =~= sp_colon_space());
    }
    assert forall|j: int| 0 <= j < 10 implies !match_at(line, sp_colon_space(), j) by {
        if match_at(line, sp_colon_space(), j) {
            assert(line.subrange(j, j + 2)[0] == line[j]);
        }
    }
    lemma_find_is(line, sp_colon_space(), 10);
    assert(line.subrange(0, 10) =~= sp_user_agent_name());
    assert(sp_lower(sp_user_agent_name()) =~= sp_key_user_agent());
    assert(line.subrange(12, line.len() as int) =~= u);
}

/// Reflecting the `User-Agent`: a request for `/user-agent` that carries the
/// header routes to a `200` text response whose body is exactly the header's
/// value, and its wire form carries `Content-Length` equal to that value's
/// byte length.
pub proof fn lemma_user_agent_reflection(req: RequestModel, u: Seq<u8>)
    requires
        req.path == seq![47u8] + sp_key_user_agent(),
        req.user_agent == Some(u),
    ensures
        sp_route(req) == ActionModel::Respond(
            ResponseModel {
                status: Status::Okay,
                body: BodyModel::Text { content: u, encoding: None },
            },
        ),
        sp_serialize(
            ResponseModel {
                status: Status::Okay,
                body: BodyModel::Text { content: u, encoding: None },
            },
        ) == sp_line_ok() + sp_hdr_ct_text() + sp_hdr_cl() + sp_dec_repr(u.len()) + sp_crlf()
            + sp_crlf() + u,
{
    assert(req.path == seq![47u8] + sp_key_user_agent() + Seq::<u8>::empty()) by {
        assert(seq![47u8] + sp_key_user_agent() + Seq::<u8>::empty() =~= seq![47u8]
            + sp_key_user_agent());
    }
    lemma_path_first_segment(sp_key_user_agent(), Seq::<u8>::empty());
    let r = ResponseModel {
        status: Status::Okay,
        body: BodyModel::Text { content: u, encoding: None },
    };
    assert(sp_serialize(r) =~= sp_line_ok() + sp_hdr_ct_text() + sp_hdr_cl() + sp_dec_repr(
        u.len(),
    ) + sp_crlf() + sp_crlf() + u);
}

/// The echo route: `/echo/{s}` with `s` free of `/` and of control characters
/// routes to a `200` text response whose body is exactly `s`, the request's
/// `Accept-Encoding` advertised back unchanged.
pub proof fn lemma_echo_returns_message(req: RequestModel, s: Seq<u8>)
    requires
        req.path == seq![47u8] + sp_seg_echo() + seq![47u8] + s,
        forall|i: int| 0 <= i < s.len() ==> s[i] != 47,
        forall|i: int| 0 <= i < s.len() ==> s[i] >= 32,
    ensures
        sp_route(req) == ActionModel::Respond(
            ResponseModel {
                status: Status::Okay,
                body: BodyModel::Text { content: s, encoding: req.accept_encoding },
            },
        ),
        sp_body_bytes(
            ResponseModel {
                status: Status::Okay,
                body: BodyModel::Text { content: s, encoding: req.accept_encoding },
            },
        ) == s,
{
    lemma_path_two_segments(sp_seg_echo(), s);
}

/// The file round trip: a `POST /files/{name}` whose body holds no carriage
/// return routes to writing exactly that body under `name`; a `GET` of the
/// same path routes to reading `name`; and a read that yields those bytes
/// becomes a `200` binary response whose body is exactly them.
pub proof fn lemma_file_round_trip(
    post: RequestModel,
    get: RequestModel,
    name: Seq<u8>,
    b: Seq<u8>,
)
    requires
        post.method == Method::Post,
        post.path == seq![47u8] + sp_seg_files() + seq![47u8] + name,
        post.body == Some(b),
        get.method == Method::Get,
        get.path == post.path,
        forall|i: int| 0 <= i < name.len() ==> name[i] != 47,
        forall|i: int| 0 <= i < b.len() ==> b[i] != 13,
    ensures
        sp_route(post) == (ActionModel::WriteFile { name, content: b }),
        sp_route(get) == (ActionModel::ReadFile { name }),
        sp_file_read_response(Some(b)) == (ResponseModel {
            status: Status::Okay,
            body: BodyModel::Binary(b),
        }),
        sp_body_bytes(sp_file_read_response(Some(b))) == b,
{
    lemma_path_two_segments(sp_seg_files(), name);
    lemma_no_byte_no_match(b, 13);
    lemma_find_from(b, seq![13u8], 0);
    if sp_find_from(b, seq![13u8], 0) is Some {
        assert(match_at(b, seq![13u8], sp_find_from(b, seq![13u8], 0)->Some_0));
    }
    assert(sp_write_content(b) == b);
}

/// A failed file read answers `404 Not Found` with no headers and an empty
/// body.
pub proof fn lemma_missing_file_not_found(req: RequestModel, name: Seq<u8>)
    requires
        req.method == Method::Get,
        req.path == seq![47u8] + sp_seg_files() + seq![47u8] + name,
        forall|i: int| 0 <= i < name.len() ==> name[i] != 47,
    ensures
        sp_route(req) == (ActionModel::ReadFile { name }),
        sp_file_read_response(None) == sp_not_found(),
        sp_serialize(sp_file_read_response(None)) == sp_line_not_found() + sp_crlf(),
        sp_body_bytes(sp_file_read_response(None)) == Seq::<u8>::empty(),
{
    lemma_path_two_segments(sp_seg_files(), name);
    assert(sp_serialize(sp_not_found()) =~= sp_line_not_found() + sp_crlf());
}

/// The root path answers `200 OK` with no headers and an empty body.
pub proof fn lemma_root_ok(req: RequestModel)
    requires
        req.path == seq![47u8],
    ensures
        sp_route(req) == ActionModel::Respond(
            ResponseModel { status: Status::Okay, body: BodyModel::Bare(Seq::<u8>::empty()) },
        ),
        sp_serialize(
            ResponseModel { status: Status::Okay, body: BodyModel::Bare(Seq::<u8>::empty()) },
        ) == sp_line_ok() + sp_crlf(),
{
    assert(req.path == seq![47u8] + Seq::<u8>::empty() + Seq::<u8>::empty()) by {
        assert(seq![47u8] + Seq::<u8>::empty() + Seq::<u8>::empty() =~= seq![47u8]);
    }
    lemma_path_first_segment(Seq::<u8>::empty(), Seq::<u8>::empty());
    let r = ResponseModel { status: Status::Okay, body: BodyModel::Bare(Seq::<u8>::empty()) };
    assert(sp_serialize(r) =~= sp_line_ok() + sp_crlf());
}

/// Any unrecognized first path segment answers `404 Not Found` with no headers
/// and an empty body.
pub proof fn lemma_unknown_segment_not_found(req: RequestModel, seg: Seq<u8>, rest: Seq<u8>)
    requires
        req.path == seq![47u8] + seg + rest,
        forall|i: int| 0 <= i < seg.len() ==> seg[i] != 47,
        rest.len() == 0 || rest[0] == 47,
        seg.len() > 0,
        seg != sp_key_user_agent(),
        seg != sp_seg_echo(),
        seg != sp_seg_files(),
    ensures
        sp_route(req) == ActionModel::Respond(sp_not_found()),
        sp_serialize(sp_not_found()) == sp_line_not_found() + sp_crlf(),
{
    lemma_path_first_segment(seg, rest);
    assert(sp_serialize(sp_not_found()) =~= sp_line_not_found() + sp_crlf());
}

} // verus!
