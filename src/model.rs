//! Entries, the JSON documents kept under a namespace, and the body decoder
//! that reads them from a request.
//!
//! The decoder tells a batch from a single entry by the body itself: a body
//! whose first character other than JSON whitespace is `[` is a batch and is
//! read as an array of entries; any other body is read as one entry. A bare
//! array is thus always a batch.
use vstd::prelude::*;
use vstd::string::*;

use crate::decimal::{int_error_message, int_error_text, lemma_parse_unsigned_bounded, parse_unsigned, parse_unsigned_text};
use crate::errors::{after_record, bad_request, DetailView, ErrorDetail, ErrorMessage};
use crate::json::{array_value, json_list_reading, json_value_failure, parse_list, parse_value, utf8_text, value_text};
use crate::namespace::opt_str;
use crate::outcome::GuardOutcome;

verus! {

/// The largest body read when the request does not say otherwise: 1 MiB.
pub const DEFAULT_BUFFER_LIMIT: u32 = 1048576;

/// One JSON document as sent or stored; any JSON value is an entry.
pub struct Entry(pub serde_json::Value);

/// A stored entry with the id the store gave it.
pub struct EntryResponse {
    pub id: u64,
    pub content: serde_json::Value,
}

/// What a body held: one entry, or an ordered batch of them.
pub enum Payload {
    One(Entry),
    Many(Vec<Entry>),
}

impl Payload {
    /// The body as a single entry, for endpoints that store one document: a
    /// batch is taken whole, as the array it was sent as.
    pub fn into_entry(self) -> (r: Entry)
        ensures
            self is One ==> r == self->One_0,
    {
        match self {
            Payload::One(e) => e,
            Payload::Many(entries) => {
                let mut items: Vec<serde_json::Value> = Vec::new();
                for e in entries.into_iter() {
                    items.push(e.0);
                }
                Entry(array_value(items))
            },
        }
    }
}

pub open spec fn is_json_space(c: char) -> bool {
    c == ' ' || c == '\t' || c == '\n' || c == '\r'
}

/// Whether the first character of `s` that is not JSON whitespace is `[`.
pub open spec fn opens_list(s: Seq<char>) -> bool
    decreases s.len(),
{
    if s.len() == 0 {
        false
    } else if is_json_space(s[0]) {
        opens_list(s.drop_first())
    } else {
        s[0] == '['
    }
}

fn starts_with_list(c: &Vec<char>) -> (r: bool)
    ensures
        r == opens_list(c@),
{
    let mut i: usize = 0;
    assert(c@.subrange(0, c@.len() as int) =~= c@);
    while i < c.len()
        invariant
            i <= c@.len(),
            opens_list(c@) == opens_list(c@.subrange(i as int, c@.len() as int)),
        decreases c@.len() - i,
    {
        let ghost rest = c@.subrange(i as int, c@.len() as int);
        assert(rest.drop_first() =~= c@.subrange(i + 1, c@.len() as int));
        let ch = c[i];
        if !(ch == ' ' || ch == '\t' || ch == '\n' || ch == '\r') {
            return ch == '[';
        }
        i = i + 1;
    }
    false
}

pub open spec fn content_length_message(why: Seq<char>) -> Seq<char> {
    "Couldn't parse X-Content-Length with error: '"@ + why + "'!"@
}

/// The byte ceiling for the body: the `X-Content-Length` header read as an
/// unsigned 32-bit integer, or the default without the header. A header that
/// does not read is an error, never a fall back to the default.
pub open spec fn judge_limit(header: Option<Seq<char>>) -> Result<u32, DetailView> {
    match header {
        None => Ok(DEFAULT_BUFFER_LIMIT),
        Some(h) => match parse_unsigned(h, u32::MAX as nat) {
            Ok(n) => Ok(n as u32),
            Err(k) => Err(
                bad_request("err_content_length_parse"@, content_length_message(int_error_message(k))),
            ),
        },
    }
}

pub open spec fn read_failure_message(why: Seq<char>) -> Seq<char> {
    "Couldn't read request body into string with error: '"@ + why + "'!"@
}

pub open spec fn not_utf8_reason() -> Seq<char> {
    "stream did not contain valid UTF-8"@
}

pub open spec fn too_large_message() -> Seq<char> {
    "Couldn't parse request body, it's too large! Default accepted size is 1MB. Consider using X-Content-Length header to set expected buffer size."@
}

pub open spec fn body_parse_message(why: Seq<char>) -> Seq<char> {
    "Couldn't parse request body into proper JSON with error: '"@ + why + "'!"@
}

/// The verdict on a text that is read as JSON: `None` for one entry, the
/// number of entries for a batch, or the parse error to report.
pub open spec fn judge_text(text: Seq<char>) -> Result<Option<nat>, DetailView> {
    if opens_list(text) {
        match json_list_reading(text) {
            Err(why) => Err(bad_request("err_request_body_parse"@, body_parse_message(why))),
            Ok(n) => Ok(Some(n)),
        }
    } else {
        match json_value_failure(text) {
            Some(why) => Err(bad_request("err_request_body_parse"@, body_parse_message(why))),
            None => Ok(None),
        }
    }
}

/// Whether a decoded payload is what a verdict of [`judge_text`] announced.
pub open spec fn payload_matches(p: Payload, shape: Option<nat>) -> bool {
    match shape {
        None => p is One,
        Some(n) => p is Many && p->Many_0@.len() == n,
    }
}

/// The verdict on a body read under the byte ceiling `limit`: one entry, a
/// batch of so many, or the error to report. `body` is what the read gave (the bytes, or
/// the reason the read failed); bytes past `limit + 1` never matter.
pub open spec fn judge_body(limit: u32, body: Result<Seq<u8>, Seq<char>>) -> Result<Option<nat>, DetailView> {
    match body {
        Err(why) => Err(bad_request("err_request_body_read"@, read_failure_message(why))),
        Ok(bytes) => if bytes.len() > limit {
            Err(bad_request("err_buffer_too_large"@, too_large_message()))
        } else if !vstd::utf8::valid_utf8(bytes) {
            Err(bad_request("err_request_body_read"@, read_failure_message(not_utf8_reason())))
        } else {
            judge_text(vstd::utf8::decode_utf8(bytes))
        },
    }
}

/// The ceiling is exact: a body of at most `limit` bytes is judged on its
/// text alone, so one of exactly `limit` bytes of JSON is accepted, while a
/// body of `limit + 1` bytes is rejected as too large.
pub proof fn lemma_size_boundary(limit: u32, bytes: Seq<u8>)
    ensures
        bytes.len() == limit as nat + 1 ==> judge_body(limit, Ok(bytes)) == Err::<Option<nat>, DetailView>(
            bad_request("err_buffer_too_large"@, too_large_message()),
        ),
        bytes.len() <= limit && vstd::utf8::valid_utf8(bytes) ==> judge_body(limit, Ok(bytes))
            == judge_text(vstd::utf8::decode_utf8(bytes)),
{
}

pub open spec fn body_view(body: Result<Vec<u8>, String>) -> Result<Seq<u8>, Seq<char>> {
    match body {
        Ok(b) => Ok(b@),
        Err(why) => Err(why@),
    }
}

fn parse_error(why: String) -> (r: ErrorDetail)
    ensures
        r@ == bad_request("err_request_body_parse"@, body_parse_message(why@)),
{
    let mut message = String::from_str("Couldn't parse request body into proper JSON with error: '");
    message.append(why.as_str());
    message.append("'!");
    ErrorDetail::bad_request("err_request_body_parse", message)
}

fn read_error(why: &str) -> (r: ErrorDetail)
    ensures
        r@ == bad_request("err_request_body_read"@, read_failure_message(why@)),
{
    let mut message = String::from_str("Couldn't read request body into string with error: '");
    message.append(why);
    message.append("'!");
    ErrorDetail::bad_request("err_request_body_read", message)
}

fn decode_text(text: &str) -> (r: Result<Payload, ErrorDetail>)
    ensures
        match judge_text(text@) {
            Ok(shape) => r is Ok && payload_matches(r->Ok_0, shape),
            Err(d) => r is Err && r->Err_0@ == d,
        },
{
    let c = crate::decimal::chars_of(text);
    if starts_with_list(&c) {
        match parse_list(text) {
            Ok(values) => {
                let mut entries: Vec<Entry> = Vec::new();
                for v in it: values.into_iter()
                    invariant
                        entries@.len() == it.index(),
                {
                    entries.push(Entry(v));
                }
                Ok(Payload::Many(entries))
            },
            Err(why) => Err(parse_error(why)),
        }
    } else {
        match parse_value(text) {
            Ok(v) => Ok(Payload::One(Entry(v))),
            Err(why) => Err(parse_error(why)),
        }
    }
}

fn decode_body(limit: u32, body: Result<Vec<u8>, String>) -> (r: Result<Payload, ErrorDetail>)
    ensures
        match judge_body(limit, body_view(body)) {
            Ok(shape) => r is Ok && payload_matches(r->Ok_0, shape),
            Err(d) => r is Err && r->Err_0@ == d,
        },
{
    match body {
        Err(why) => Err(read_error(why.as_str())),
        Ok(bytes) => {
            if bytes.len() > limit as usize {
                return Err(
                    ErrorDetail::bad_request(
                        "err_buffer_too_large",
                        String::from_str(
                            "Couldn't parse request body, it's too large! Default accepted size is 1MB. Consider using X-Content-Length header to set expected buffer size.",
                        ),
                    ),
                );
            }
            match utf8_text(bytes) {
                None => Err(read_error("stream did not contain valid UTF-8")),
                Some(text) => decode_text(text.as_str()),
            }
        },
    }
}

impl Entry {
    /// The first steps of the body decoder, before the body is read. A body
    /// that is not declared JSON is not for this decoder: forward. Otherwise
    /// the byte ceiling is resolved from the `X-Content-Length` header; a
    /// header that does not read is rejected and its error recorded.
    pub fn read_limit(is_json: bool, header: Option<&str>, ctx: &mut ErrorMessage) -> (r: GuardOutcome<u32>)
        ensures
            !is_json ==> r is Forward && final(ctx)@ == old(ctx)@,
            is_json ==> match judge_limit(opt_str(header)) {
                Ok(n) => r is Accept && r->Accept_0 == n && final(ctx)@ == old(ctx)@,
                Err(d) => r is Reject && r->Reject_0@ == d && final(ctx)@ == after_record(old(ctx)@, d),
            },
    {
        if !is_json {
            return GuardOutcome::Forward;
        }
        match header {
            None => GuardOutcome::Accept(DEFAULT_BUFFER_LIMIT),
            Some(h) => {
                proof {
                    lemma_parse_unsigned_bounded(h@, u32::MAX as nat);
                }
                match parse_unsigned_text(h, 4294967295) {
                    Ok(n) => GuardOutcome::Accept(n as u32),
                    Err(k) => {
                        let mut message = String::from_str("Couldn't parse X-Content-Length with error: '");
                        message.append(int_error_text(k).as_str());
                        message.append("'!");
                        let d = ErrorDetail::bad_request("err_content_length_parse", message);
                        ctx.record(d.duplicate());
                        GuardOutcome::Reject(d)
                    },
                }
            },
        }
    }

    /// The last steps of the body decoder, on what was read of the body under
    /// the ceiling `limit` (reading `limit + 1` bytes is enough to decide).
    /// A failed read, a body over the ceiling, bytes that are not UTF-8 and
    /// text that is not JSON are each rejected and recorded; otherwise the
    /// body is accepted as one entry or, when it opens with `[`, as a batch of
    /// as many entries as the array holds.
    pub fn from_data(limit: u32, body: Result<Vec<u8>, String>, ctx: &mut ErrorMessage) -> (r: GuardOutcome<Payload>)
        ensures
            match judge_body(limit, body_view(body)) {
                Ok(shape) => r is Accept && payload_matches(r->Accept_0, shape) && final(ctx)@ == old(ctx)@,
                Err(d) => r is Reject && r->Reject_0@ == d && final(ctx)@ == after_record(old(ctx)@, d),
            },
    {
        match decode_body(limit, body) {
            Ok(p) => GuardOutcome::Accept(p),
            Err(d) => {
                ctx.record(d.duplicate());
                GuardOutcome::Reject(d)
            },
        }
    }

    /// An entry read back from the store, from its id column and its stored
    /// text; `None` when that text is not JSON.
    pub fn from_row(id: i64, content: &str) -> (r: Option<EntryResponse>)
        ensures
            r is Some <==> json_value_failure(content@) is None,
            r is Some ==> r->Some_0.id == id as u64,
    {
        match parse_value(content) {
            Ok(v) => Some(EntryResponse { id: id as u64, content: v }),
            Err(_) => None,
        }
    }

    /// Where page `page` (counted from 0) of a listing lies when a page holds
    /// `page_size` entries: how many rows to take, and how many to skip.
    pub fn page_bounds(page: u32, page_size: u16) -> (r: (i64, i64))
        ensures
            r.0 == page_size as int,
            r.1 == page as int * page_size as int,
    {
        assert(page as int * page_size as int <= 4294967295 * 65535) by (nonlinear_arith)
            requires
                page <= 4294967295,
                page_size <= 65535,
        ;
        (page_size as i64, page as i64 * page_size as i64)
    }

    /// The text under which the entry is stored: its compact JSON.
    pub fn stored_content(&self) -> String {
        value_text(&self.0)
    }
}

} // verus!
