//! The byte strings of the wire protocol, each as a spec constant with its
//! executable counterpart.

use vstd::prelude::*;

verus! {

/// `"\r\n"`: the line terminator.
pub open spec fn sp_crlf() -> Seq<u8> {
    seq![13u8, 10]
}

pub fn lit_crlf() -> (r: Vec<u8>)
    ensures
        r@ == sp_crlf(),
{
    let r: Vec<u8> = vec![13u8, 10];
    proof {
        assert(r@ =~= sp_crlf());
    }
    r
}

/// `"\r\n\r\n"`: the header/body separator.
pub open spec fn sp_crlfcrlf() -> Seq<u8> {
    seq![13u8, 10, 13, 10]
}

pub fn lit_crlfcrlf() -> (r: Vec<u8>)
    ensures
        r@ == sp_crlfcrlf(),
{
    let r: Vec<u8> = vec![13u8, 10, 13, 10];
    proof {
        assert(r@ =~= sp_crlfcrlf());
    }
    r
}

/// `" "`: the request-line token separator.
pub open spec fn sp_space() -> Seq<u8> {
    seq![32u8]
}

pub fn lit_space() -> (r: Vec<u8>)
    ensures
        r@ == sp_space(),
{
    let r: Vec<u8> = vec![32u8];
    proof {
        assert(r@ =~= sp_space());
    }
    r
}

/// `": "`: the header key/value separator.
pub open spec fn sp_colon_space() -> Seq<u8> {
    seq![58u8, 32]
}

pub fn lit_colon_space() -> (r: Vec<u8>)
    ensures
        r@ == sp_colon_space(),
{
    let r: Vec<u8> = vec![58u8, 32];
    proof {
        assert(r@ =~= sp_colon_space());
    }
    r
}

/// `"/"`: the path segment separator.
pub open spec fn sp_slash() -> Seq<u8> {
    seq![47u8]
}

pub fn lit_slash() -> (r: Vec<u8>)
    ensures
        r@ == sp_slash(),
{
    let r: Vec<u8> = vec![47u8];
    proof {
        assert(r@ =~= sp_slash());
    }
    r
}

/// `"GET"`: the GET method token.
pub open spec fn sp_get() -> Seq<u8> {
    seq![71u8, 69, 84]
}

pub fn lit_get() -> (r: Vec<u8>)
    ensures
        r@ == sp_get(),
{
    let r: Vec<u8> = vec![71u8, 69, 84];
    proof {
        assert(r@ =~= sp_get());
    }
    r
}

/// `"POST"`: the POST method token.
pub open spec fn sp_post() -> Seq<u8> {
    seq![80u8, 79, 83, 84]
}

pub fn lit_post() -> (r: Vec<u8>)
    ensures
        r@ == sp_post(),
{
    let r: Vec<u8> = vec![80u8, 79, 83, 84];
    proof {
        assert(r@ =~= sp_post());
    }
    r
}

/// `"User-Agent"`: the header name as a client conventionally writes it.
pub open spec fn sp_user_agent_name() -> Seq<u8> {
    seq![85u8, 115, 101, 114, 45, 65, 103, 101, 110, 116]
}

/// `"user-agent"`: recognized header key (also the reflection route segment).
pub open spec fn sp_key_user_agent() -> Seq<u8> {
    seq![117u8, 115, 101, 114, 45, 97, 103, 101, 110, 116]
}

pub fn lit_key_user_agent() -> (r: Vec<u8>)
    ensures
        r@ == sp_key_user_agent(),
{
    let r: Vec<u8> = vec![117u8, 115, 101, 114, 45, 97, 103, 101, 110, 116];
    proof {
        assert(r@ =~= sp_key_user_agent());
    }
    r
}

/// `"accept-encoding"`: recognized header key.
pub open spec fn sp_key_accept_encoding() -> Seq<u8> {
    seq![97u8, 99, 99, 101, 112, 116, 45, 101, 110, 99, 111, 100, 105, 110, 103]
}

pub fn lit_key_accept_encoding() -> (r: Vec<u8>)
    ensures
        r@ == sp_key_accept_encoding(),
{
    let r: Vec<u8> = vec![97u8, 99, 99, 101, 112, 116, 45, 101, 110, 99, 111, 100, 105, 110, 103];
    proof {
        assert(r@ =~= sp_key_accept_encoding());
    }
    r
}

/// `"content-encoding"`: recognized header key.
pub open spec fn sp_key_content_encoding() -> Seq<u8> {
    seq![99u8, 111, 110, 116, 101, 110, 116, 45, 101, 110, 99, 111, 100, 105, 110, 103]
}

pub fn lit_key_content_encoding() -> (r: Vec<u8>)
    ensures
        r@ == sp_key_content_encoding(),
{
    let r: Vec<u8> = vec![99u8, 111, 110, 116, 101, 110, 116, 45, 101, 110, 99, 111, 100, 105, 110, 103];
    proof {
        assert(r@ =~= sp_key_content_encoding());
    }
    r
}

/// `"content-type"`: recognized header key.
pub open spec fn sp_key_content_type() -> Seq<u8> {
    seq![99u8, 111, 110, 116, 101, 110, 116, 45, 116, 121, 112, 101]
}

pub fn lit_key_content_type() -> (r: Vec<u8>)
    ensures
        r@ == sp_key_content_type(),
{
    let r: Vec<u8> = vec![99u8, 111, 110, 116, 101, 110, 116, 45, 116, 121, 112, 101];
    proof {
        assert(r@ =~= sp_key_content_type());
    }
    r
}

/// `"content-length"`: recognized header key.
pub open spec fn sp_key_content_length() -> Seq<u8> {
    seq![99u8, 111, 110, 116, 101, 110, 116, 45, 108, 101, 110, 103, 116, 104]
}

pub fn lit_key_content_length() -> (r: Vec<u8>)
    ensures
        r@ == sp_key_content_length(),
{
    let r: Vec<u8> = vec![99u8, 111, 110, 116, 101, 110, 116, 45, 108, 101, 110, 103, 116, 104];
    proof {
        assert(r@ =~= sp_key_content_length());
    }
    r
}

/// `"echo"`: the echo route segment.
pub open spec fn sp_seg_echo() -> Seq<u8> {
    seq![101u8, 99, 104, 111]
}

pub fn lit_seg_echo() -> (r: Vec<u8>)
    ensures
        r@ == sp_seg_echo(),
{
    let r: Vec<u8> = vec![101u8, 99, 104, 111];
    proof {
        assert(r@ =~= sp_seg_echo());
    }
    r
}

/// `"files"`: the file route segment.
pub open spec fn sp_seg_files() -> Seq<u8> {
    seq![102u8, 105, 108, 101, 115]
}

pub fn lit_seg_files() -> (r: Vec<u8>)
    ensures
        r@ == sp_seg_files(),
{
    let r: Vec<u8> = vec![102u8, 105, 108, 101, 115];
    proof {
        assert(r@ =~= sp_seg_files());
    }
    r
}

/// `"HTTP/1.1 200 OK\r\n"`: status line.
pub open spec fn sp_line_ok() -> Seq<u8> {
    seq![72u8, 84, 84, 80, 47, 49, 46, 49, 32, 50, 48, 48, 32, 79, 75, 13, 10]
}

pub fn lit_line_ok() -> (r: Vec<u8>)
    ensures
        r@ == sp_line_ok(),
{
    let r: Vec<u8> = vec![72u8, 84, 84, 80, 47, 49, 46, 49, 32, 50, 48, 48, 32, 79, 75, 13, 10];
    proof {
        assert(r@ =~= sp_line_ok());
    }
    r
}

/// `"HTTP/1.1 201 Created\r\n"`: status line.
pub open spec fn sp_line_created() -> Seq<u8> {
    seq![72u8, 84, 84, 80, 47, 49, 46, 49, 32, 50, 48, 49, 32, 67, 114, 101, 97, 116, 101, 100, 13, 10]
}

pub fn lit_line_created() -> (r: Vec<u8>)
    ensures
        r@ == sp_line_created(),
{
    let r: Vec<u8> = vec![72u8, 84, 84, 80, 47, 49, 46, 49, 32, 50, 48, 49, 32, 67, 114, 101, 97, 116, 101, 100, 13, 10];
    proof {
        assert(r@ =~= sp_line_created());
    }
    r
}

/// `"HTTP/1.1 400 Bad Request\r\n"`: status line.
pub open spec fn sp_line_bad_request() -> Seq<u8> {
    seq![72u8, 84, 84, 80, 47, 49, 46, 49, 32, 52, 48, 48, 32, 66, 97, 100, 32, 82, 101, 113, 117, 101, 115, 116, 13, 10]
}

pub fn lit_line_bad_request() -> (r: Vec<u8>)
    ensures
        r@ == sp_line_bad_request(),
{
    let r: Vec<u8> = vec![72u8, 84, 84, 80, 47, 49, 46, 49, 32, 52, 48, 48, 32, 66, 97, 100, 32, 82, 101, 113, 117, 101, 115, 116, 13, 10];
    proof {
        assert(r@ =~= sp_line_bad_request());
    }
    r
}

/// `"HTTP/1.1 404 Not Found\r\n"`: status line.
pub open spec fn sp_line_not_found() -> Seq<u8> {
    seq![72u8, 84, 84, 80, 47, 49, 46, 49, 32, 52, 48, 52, 32, 78, 111, 116, 32, 70, 111, 117, 110, 100, 13, 10]
}

pub fn lit_line_not_found() -> (r: Vec<u8>)
    ensures
        r@ == sp_line_not_found(),
{
    let r: Vec<u8> = vec![72u8, 84, 84, 80, 47, 49, 46, 49, 32, 52, 48, 52, 32, 78, 111, 116, 32, 70, 111, 117, 110, 100, 13, 10];
    proof {
        assert(r@ =~= sp_line_not_found());
    }
    r
}

/// `"Content-Type: text/plain\r\n"`: header of a text response.
pub open spec fn sp_hdr_ct_text() -> Seq<u8> {
    seq![67u8, 111, 110, 116, 101, 110, 116, 45, 84, 121, 112, 101, 58, 32, 116, 101, 120, 116, 47, 112, 108, 97, 105, 110, 13, 10]
}

pub fn lit_hdr_ct_text() -> (r: Vec<u8>)
    ensures
        r@ == sp_hdr_ct_text(),
{
    let r: Vec<u8> = vec![67u8, 111, 110, 116, 101, 110, 116, 45, 84, 121, 112, 101, 58, 32, 116, 101, 120, 116, 47, 112, 108, 97, 105, 110, 13, 10];
    proof {
        assert(r@ =~= sp_hdr_ct_text());
    }
    r
}

/// `"Content-Type: application/octet-stream\r\n"`: header of a binary response.
pub open spec fn sp_hdr_ct_octet() -> Seq<u8> {
    seq![67u8, 111, 110, 116, 101, 110, 116, 45, 84, 121, 112, 101, 58, 32, 97, 112, 112, 108, 105, 99, 97, 116, 105, 111, 110, 47, 111, 99, 116, 101, 116, 45, 115, 116, 114, 101, 97, 109, 13, 10]
}

pub fn lit_hdr_ct_octet() -> (r: Vec<u8>)
    ensures
        r@ == sp_hdr_ct_octet(),
{
    let r: Vec<u8> = vec![67u8, 111, 110, 116, 101, 110, 116, 45, 84, 121, 112, 101, 58, 32, 97, 112, 112, 108, 105, 99, 97, 116, 105, 111, 110, 47, 111, 99, 116, 101, 116, 45, 115, 116, 114, 101, 97, 109, 13, 10];
    proof {
        assert(r@ =~= sp_hdr_ct_octet());
    }
    r
}

/// `"Content-Length: "`: header name prefix.
pub open spec fn sp_hdr_cl() -> Seq<u8> {
    seq![67u8, 111, 110, 116, 101, 110, 116, 45, 76, 101, 110, 103, 116, 104, 58, 32]
}

pub fn lit_hdr_cl() -> (r: Vec<u8>)
    ensures
        r@ == sp_hdr_cl(),
{
    let r: Vec<u8> = vec![67u8, 111, 110, 116, 101, 110, 116, 45, 76, 101, 110, 103, 116, 104, 58, 32];
    proof {
        assert(r@ =~= sp_hdr_cl());
    }
    r
}

/// `"Content-Encoding: "`: header name prefix.
pub open spec fn sp_hdr_ce() -> Seq<u8> {
    seq![67u8, 111, 110, 116, 101, 110, 116, 45, 69, 110, 99, 111, 100, 105, 110, 103, 58, 32]
}

pub fn lit_hdr_ce() -> (r: Vec<u8>)
    ensures
        r@ == sp_hdr_ce(),
{
    let r: Vec<u8> = vec![67u8, 111, 110, 116, 101, 110, 116, 45, 69, 110, 99, 111, 100, 105, 110, 103, 58, 32];
    proof {
        assert(r@ =~= sp_hdr_ce());
    }
    r
}

/// `"malformed request line"`: diagnostic text.
pub open spec fn sp_msg_malformed() -> Seq<u8> {
    seq![109u8, 97, 108, 102, 111, 114, 109, 101, 100, 32, 114, 101, 113, 117, 101, 115, 116, 32, 108, 105, 110, 101]
}

pub fn lit_msg_malformed() -> (r: Vec<u8>)
    ensures
        r@ == sp_msg_malformed(),
{
    let r: Vec<u8> = vec![109u8, 97, 108, 102, 111, 114, 109, 101, 100, 32, 114, 101, 113, 117, 101, 115, 116, 32, 108, 105, 110, 101];
    proof {
        assert(r@ =~= sp_msg_malformed());
    }
    r
}

/// `"unknown method: "`: diagnostic text.
pub open spec fn sp_msg_unknown_method() -> Seq<u8> {
    seq![117u8, 110, 107, 110, 111, 119, 110, 32, 109, 101, 116, 104, 111, 100, 58, 32]
}

pub fn lit_msg_unknown_method() -> (r: Vec<u8>)
    ensures
        r@ == sp_msg_unknown_method(),
{
    let r: Vec<u8> = vec![117u8, 110, 107, 110, 111, 119, 110, 32, 109, 101, 116, 104, 111, 100, 58, 32];
    proof {
        assert(r@ =~= sp_msg_unknown_method());
    }
    r
}

/// `"--directory"`: the directory command-line option.
pub open spec fn sp_opt_directory() -> Seq<u8> {
    seq![45u8, 45, 100, 105, 114, 101, 99, 116, 111, 114, 121]
}

pub fn lit_opt_directory() -> (r: Vec<u8>)
    ensures
        r@ == sp_opt_directory(),
{
    let r: Vec<u8> = vec![45u8, 45, 100, 105, 114, 101, 99, 116, 111, 114, 121];
    proof {
        assert(r@ =~= sp_opt_directory());
    }
    r
}

} // verus!
