//! The normalized response record.

use vstd::prelude::*;
use crate::headers::{classify, kind_of};
use crate::model::{pairs, HeaderEntry, ResponseType};
use crate::text::byte_len;

verus! {

/// The mathematical content of a response record.
pub struct ResponseView {
    /// The status code of the response, 0 where none arrived.
    pub status: u16,
    pub body: Seq<char>,
    pub headers: Seq<(Seq<char>, Seq<char>)>,
    /// Milliseconds that the exchange took.
    pub time: u32,
    /// The number of bytes of the body.
    pub size: u64,
    pub response_type: ResponseType,
    /// The index under which the request was submitted.
    pub request_index: usize,
    pub failed: bool,
}

impl ResponseView {
    /// What holds of every record: the size is the byte length of the body,
    /// and a failed exchange has no status.
    pub open spec fn wf(self) -> bool {
        &&& self.size == byte_len(self.body)
        &&& self.failed ==> self.status == 0
    }

    /// The record before any exchange has completed.
    pub open spec fn blank() -> ResponseView {
        ResponseView {
            status: 0,
            body: Seq::empty(),
            headers: Seq::empty(),
            time: 0,
            size: 0,
            response_type: ResponseType::TEXT,
            request_index: 0,
            failed: false,
        }
    }

    /// The record of an exchange that brought a response.
    pub open spec fn answered(
        request_index: usize,
        time: u32,
        status: u16,
        headers: Seq<(Seq<char>, Seq<char>)>,
        body: Seq<char>,
    ) -> ResponseView {
        ResponseView {
            status,
            body,
            headers,
            time,
            size: byte_len(body) as u64,
            response_type: kind_of(headers),
            request_index,
            failed: false,
        }
    }

    /// The record of an exchange that failed: no status, no headers, and
    /// the reason of the failure in place of a body.
    pub open spec fn failure(request_index: usize, time: u32, reason: Seq<char>) -> ResponseView {
        ResponseView {
            status: 0,
            body: reason,
            headers: Seq::empty(),
            time,
            size: byte_len(reason) as u64,
            response_type: ResponseType::TEXT,
            request_index,
            failed: true,
        }
    }
}

/// The outcome of one exchange, in the form in which it is reported.
///
/// The fields are private: a record is made by one of the constructors and
/// never changed, so that every record is well formed.
#[derive(Debug, PartialEq, Eq)]
pub struct HttpResponse {
    status: u16,
    body: String,
    headers: Vec<HeaderEntry>,
    time: u32,
    size: u64,
    response_type: ResponseType,
    request_index: usize,
    failed: bool,
}

impl View for HttpResponse {
    type V = ResponseView;

    closed spec fn view(&self) -> ResponseView {
        ResponseView {
            status: self.status,
            body: self.body@,
            headers: pairs(self.headers@),
            time: self.time,
            size: self.size,
            response_type: self.response_type,
            request_index: self.request_index,
            failed: self.failed,
        }
    }
}

/// The byte length of a string.
fn bytes_in(text: &String) -> (n: u64)
    ensures
        n == byte_len(text@),
{
    text.as_str().as_bytes().len() as u64
}

impl HttpResponse {
    #[verifier::type_invariant]
    spec fn well_formed(&self) -> bool {
        self@.wf()
    }

    /// The record before any exchange has completed: status 0, no body, no
    /// headers, no time, text content, index 0, not failed.
    pub fn new() -> (record: Self)
        ensures
            record@ == ResponseView::blank(),
            record@.wf(),
    {
        let record = HttpResponse {
            status: 0,
            body: String::new(),
            headers: Vec::new(),
            time: 0,
            size: 0,
            response_type: ResponseType::TEXT,
            request_index: 0,
            failed: false,
        };
        assert(pairs(record.headers@) =~= Seq::empty());
        record
    }

    /// The record of an exchange that brought a response. The size is
    /// counted from the body, and the content is classified by the headers.
    pub fn answered(
        request_index: usize,
        time: u32,
        status: u16,
        headers: Vec<HeaderEntry>,
        body: String,
    ) -> (record: Self)
        ensures
            record@ == ResponseView::answered(request_index, time, status, pairs(headers@), body@),
            record@.wf(),
    {
        let size = bytes_in(&body);
        let response_type = classify(&headers);
        HttpResponse {
            status,
            body,
            headers,
            time,
            size,
            response_type,
            request_index,
            failed: false,
        }
    }

    /// The record of an exchange that failed, with the reason in words as
    /// its body. The size is counted from that text.
    pub fn failure(request_index: usize, time: u32, reason: String) -> (record: Self)
        ensures
            record@ == ResponseView::failure(request_index, time, reason@),
            record@.wf(),
    {
        let size = bytes_in(&reason);
        let record = HttpResponse {
            status: 0,
            body: reason,
            headers: Vec::new(),
            time,
            size,
            response_type: ResponseType::TEXT,
            request_index,
            failed: true,
        };
        assert(pairs(record.headers@) =~= Seq::empty());
        record
    }

    /// The status code of the response; 0 where the exchange failed.
    pub fn status(&self) -> (status: u16)
        ensures
            status == self@.status,
            self@.failed ==> status == 0,
    {
        proof {
            use_type_invariant(self);
        }
        self.status
    }

    /// The body of the response, or the reason of the failure.
    pub fn body(&self) -> (body: &str)
        ensures
            body@ == self@.body,
    {
        self.body.as_str()
    }

    /// The headers of the response, in the order in which they were read.
    pub fn headers(&self) -> (headers: &Vec<HeaderEntry>)
        ensures
            pairs(headers@) == self@.headers,
    {
        &self.headers
    }

    /// Milliseconds that the exchange took.
    pub fn time(&self) -> (time: u32)
        ensures
            time == self@.time,
    {
        self.time
    }

    /// The number of bytes of the body. It is the body's length in every
    /// record, also where the body is the reason of a failure.
    pub fn size(&self) -> (size: u64)
        ensures
            size == self@.size,
            size == byte_len(self@.body),
    {
        proof {
            use_type_invariant(self);
        }
        self.size
    }

    /// The kind of content that the response announced.
    pub fn response_type(&self) -> (kind: ResponseType)
        ensures
            kind == self@.response_type,
    {
        self.response_type
    }

    /// The index under which the request was submitted.
    pub fn request_index(&self) -> (index: usize)
        ensures
            index == self@.request_index,
    {
        self.request_index
    }

    /// Whether the exchange failed. A failed exchange has status 0.
    pub fn failed(&self) -> (failed: bool)
        ensures
            failed == self@.failed,
            failed ==> self@.status == 0,
    {
        proof {
            use_type_invariant(self);
        }
        self.failed
    }
}

impl Clone for HttpResponse {
    fn clone(&self) -> (copy: Self)
        ensures
            copy@ == self@,
    {
        proof {
            use_type_invariant(self);
        }
        let copy = HttpResponse {
            status: self.status,
            body: self.body.clone(),
            headers: self.headers.clone(),
            time: self.time,
            size: self.size,
            response_type: self.response_type,
            request_index: self.request_index,
            failed: self.failed,
        };
        assert(pairs(copy.headers@) =~= pairs(self.headers@));
        copy
    }
}

} // verus!
