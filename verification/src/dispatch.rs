//! One exchange, from the request to its record.
//!
//! An exchange has two halves with the network in between. `plan` says
//! which call to make for a request. `complete` takes what came back and
//! makes the record that is reported under the request's index.

use vstd::prelude::*;
use vstd::arithmetic::div_mod::lemma_mod_multiples_vanish;
use reqwest::header::{HeaderMap, HeaderValue};
use crate::headers::{
    all_readable, as_text, extract_headers, first_unreadable, held, unreadable_reason,
    UnreadableHeader,
};
use crate::model::{pairs, HeaderEntry, HttpRequest};
use crate::request::{attach_headers, prepare_request, resolved_url, sendable, PendingCall, PendingCallView};
use crate::response::{HttpResponse, ResponseView};
use crate::text::byte_len;

verus! {

/// The call for a request, headers included.
pub open spec fn planned(req: HttpRequest) -> PendingCallView {
    PendingCallView {
        method: req.method,
        url: resolved_url(req.url@),
        body: req.body@,
        headers: sendable(pairs(req.headers@)),
    }
}

/// Says which call is to be made for a request: to the resolved address,
/// under the request's method, with its body, and with those of its headers
/// that have a name and a value, in the order given.
pub fn plan(req: &HttpRequest) -> (call: PendingCall)
    ensures
        call@ == planned(*req),
{
    let call = attach_headers(prepare_request(req), &req.headers);
    assert(call@.headers =~= sendable(pairs(req.headers@)));
    call
}

/// The time between two readings of a millisecond clock, cut to 32 bits.
pub open spec fn elapsed(start: u128, end: u128) -> u32 {
    ((end - start) % 0x1_0000_0000) as u32
}

/// The milliseconds from `start` to `end`, cut to their low 32 bits. Where
/// the clock went backwards the difference wraps around, as it does for a
/// span of more than 32 bits.
pub fn elapsed_ms(start: u128, end: u128) -> (ms: u32)
    ensures
        ms == elapsed(start, end),
{
    let span: u128 = end.wrapping_sub(start);
    proof {
        if end < start {
            lemma_mod_multiples_vanish(
                0x1_0000_0000_0000_0000_0000_0000,
                end - start,
                0x1_0000_0000,
            );
        }
    }
    (span % 0x1_0000_0000) as u32
}

/// What the transport handed back for a call.
#[derive(Debug)]
pub enum Reply {
    /// A response arrived.
    Response {
        status: u16,
        headers: HeaderMap<HeaderValue>,
        /// The body as text, or, where it could not be read as text, the
        /// reason in words.
        body: Result<String, String>,
    },
    /// No response arrived. The reason in words.
    Failure(String),
}

/// The mathematical content of a `Reply`.
pub enum ReplyView {
    Response {
        status: u16,
        headers: Seq<(Seq<char>, Option<Seq<char>>)>,
        body: Result<Seq<char>, Seq<char>>,
    },
    Failure(Seq<char>),
}

impl View for Reply {
    type V = ReplyView;

    open spec fn view(&self) -> ReplyView {
        match self {
            Reply::Response { status, headers, body } => ReplyView::Response {
                status: *status,
                headers: held(*headers),
                body: match body {
                    Ok(text) => Ok(text@),
                    Err(reason) => Err(reason@),
                },
            },
            Reply::Failure(reason) => ReplyView::Failure(reason@),
        }
    }
}

/// The list that a header map's entries give, or the name of the first
/// header whose value is not text.
pub open spec fn headers_read(entries: Seq<(Seq<char>, Option<Seq<char>>)>) -> Result<
    Seq<(Seq<char>, Seq<char>)>,
    Seq<char>,
> {
    if all_readable(entries) {
        Ok(as_text(entries))
    } else {
        Err(entries[choose|at: int| first_unreadable(entries, at)].0)
    }
}

/// The record for a response, given what was read of its headers and of
/// its body.
///
/// Where both are text the response is reported as it came. An unreadable
/// header makes a failure, and so does an unreadable body. Where neither
/// could be read, the header is the one reported.
pub open spec fn response_record(
    request_index: usize,
    time: u32,
    status: u16,
    headers: Result<Seq<(Seq<char>, Seq<char>)>, Seq<char>>,
    body: Result<Seq<char>, Seq<char>>,
) -> ResponseView {
    match headers {
        Err(name) => ResponseView::failure(request_index, time, unreadable_reason(name)),
        Ok(entries) => match body {
            Err(reason) => ResponseView::failure(request_index, time, reason),
            Ok(text) => ResponseView::answered(request_index, time, status, entries, text),
        },
    }
}

/// The record for a reply: that of the response where one arrived, and a
/// failure with the transport's reason where none did.
pub open spec fn record_of(request_index: usize, time: u32, reply: ReplyView) -> ResponseView {
    match reply {
        ReplyView::Failure(reason) => ResponseView::failure(request_index, time, reason),
        ReplyView::Response { status, headers, body } => response_record(
            request_index,
            time,
            status,
            headers_read(headers),
            body,
        ),
    }
}

/// Headers as they were read, as character sequences.
pub open spec fn read_view(headers: Result<Vec<HeaderEntry>, UnreadableHeader>) -> Result<
    Seq<(Seq<char>, Seq<char>)>,
    Seq<char>,
> {
    match headers {
        Ok(entries) => Ok(pairs(entries@)),
        Err(unreadable) => Err(unreadable.name@),
    }
}

/// A body as it was read, as character sequences.
pub open spec fn body_view(body: Result<String, String>) -> Result<Seq<char>, Seq<char>> {
    match body {
        Ok(text) => Ok(text@),
        Err(reason) => Err(reason@),
    }
}

/// Makes the record of a response from what was read of it: its status,
/// its headers or the header that could not be read, and its body or the
/// reason why it could not be read.
pub fn record_response(
    request_index: usize,
    time: u32,
    status: u16,
    headers: Result<Vec<HeaderEntry>, UnreadableHeader>,
    body: Result<String, String>,
) -> (record: HttpResponse)
    ensures
        record@ == response_record(request_index, time, status, read_view(headers), body_view(body)),
        record@.request_index == request_index,
        record@.wf(),
{
    match headers {
        Err(unreadable) => HttpResponse::failure(request_index, time, unreadable.describe()),
        Ok(entries) => match body {
            Err(reason) => HttpResponse::failure(request_index, time, reason),
            Ok(text) => HttpResponse::answered(request_index, time, status, entries, text),
        },
    }
}

/// Makes the record of an exchange: what came back for `req`, asked at
/// `start` and answered at `end` on a millisecond clock.
///
/// The record carries the index of `req`, whatever came back.
pub fn complete(req: &HttpRequest, start: u128, end: u128, reply: Reply) -> (record: HttpResponse)
    ensures
        record@ == record_of(req.request_index, elapsed(start, end), reply@),
        record@.request_index == req.request_index,
        record@.wf(),
{
    let time = elapsed_ms(start, end);
    match reply {
        Reply::Failure(reason) => HttpResponse::failure(req.request_index, time, reason),
        Reply::Response { status, headers, body } => {
            let read = extract_headers(&headers);
            proof {
                lemma_headers_read(held(headers), read_view(read));
            }
            record_response(req.request_index, time, status, read, body)
        },
    }
}

/// There is one first unreadable header at most, so a reading that found
/// one found the one that `headers_read` names.
proof fn lemma_headers_read(
    entries: Seq<(Seq<char>, Option<Seq<char>>)>,
    read: Result<Seq<(Seq<char>, Seq<char>)>, Seq<char>>,
)
    requires
        match read {
            Ok(list) => all_readable(entries) && list == as_text(entries),
            Err(name) => exists|at: int| first_unreadable(entries, at) && name == entries[at].0,
        },
    ensures
        read == headers_read(entries),
{
    if let Err(name) = read {
        let found = choose|at: int| first_unreadable(entries, at) && name == entries[at].0;
        let chosen = choose|at: int| first_unreadable(entries, at);
        assert(first_unreadable(entries, found));
        assert(first_unreadable(entries, chosen));
        if found < chosen {
            assert(entries[found].1 is Some);
        } else if chosen < found {
            assert(entries[chosen].1 is Some);
        }
    }
}

/// What holds of the record for every reply: it carries the index it was
/// made for, and where it is a failure its status is 0. Its size is the
/// byte length of its body, as far as that length fits the size's 64 bits.
pub proof fn lemma_record_of_is_sound(request_index: usize, time: u32, reply: ReplyView)
    ensures
        record_of(request_index, time, reply).request_index == request_index,
        record_of(request_index, time, reply).time == time,
        record_of(request_index, time, reply).failed ==> record_of(
            request_index,
            time,
            reply,
        ).status == 0,
        byte_len(record_of(request_index, time, reply).body) <= u64::MAX ==> record_of(
            request_index,
            time,
            reply,
        ).size == byte_len(record_of(request_index, time, reply).body),
{
}

} // verus!
