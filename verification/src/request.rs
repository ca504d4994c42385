//! From a request description to the call that is to be made.

use vstd::prelude::*;
use crate::model::{pairs, HeaderEntry, HttpRequest, Method};
use crate::text::{contains, has_infix};

verus! {

/// The address a call goes to. An address that holds `http` anywhere, not
/// only at its start, is taken as it is; any other gets `http://` in front.
pub open spec fn resolved_url(url: Seq<char>) -> Seq<char> {
    if has_infix(url, "http"@) {
        url
    } else {
        "http://"@ + url
    }
}

/// Resolves the address of a call.
///
/// The test is for the substring `http`, so `myhttpserver.com` is left
/// untouched although it names no scheme.
pub fn normalize_url(url: &str) -> (resolved: String)
    ensures
        resolved@ == resolved_url(url@),
{
    if contains(url, "http") {
        url.to_owned()
    } else {
        "http://".to_owned().concat(url)
    }
}

/// A header is sent only if neither its name nor its value is empty.
pub open spec fn is_sendable(header: (Seq<char>, Seq<char>)) -> bool {
    header.0.len() > 0 && header.1.len() > 0
}

/// The headers that are sent, out of those that were given: the sendable
/// ones, in the order in which they were given.
pub open spec fn sendable(headers: Seq<(Seq<char>, Seq<char>)>) -> Seq<(Seq<char>, Seq<char>)> {
    headers.filter(|h: (Seq<char>, Seq<char>)| is_sendable(h))
}

/// A call that is ready to be made: where it goes, under which method, with
/// which body and which headers.
#[derive(Debug, PartialEq, Eq)]
pub struct PendingCall {
    pub method: Method,
    pub url: String,
    pub body: String,
    pub headers: Vec<HeaderEntry>,
}

/// The mathematical content of a `PendingCall`.
pub struct PendingCallView {
    pub method: Method,
    pub url: Seq<char>,
    pub body: Seq<char>,
    pub headers: Seq<(Seq<char>, Seq<char>)>,
}

impl View for PendingCall {
    type V = PendingCallView;

    open spec fn view(&self) -> PendingCallView {
        PendingCallView {
            method: self.method,
            url: self.url@,
            body: self.body@,
            headers: pairs(self.headers@),
        }
    }
}

/// Builds the call for a request: bound to the resolved address, the
/// request's method and its body, with no header attached yet. The body is
/// attached whatever the method is.
pub fn prepare_request(req: &HttpRequest) -> (call: PendingCall)
    ensures
        call@ == (PendingCallView {
            method: req.method,
            url: resolved_url(req.url@),
            body: req.body@,
            headers: Seq::empty(),
        }),
{
    let call = PendingCall {
        method: req.method,
        url: normalize_url(req.url.as_str()),
        body: req.body.clone(),
        headers: Vec::new(),
    };
    assert(pairs(call.headers@) =~= Seq::empty());
    call
}

/// Attaches the sendable ones among `headers` to `call`, behind those it
/// already carries and in the order given.
pub fn attach_headers(call: PendingCall, headers: &Vec<HeaderEntry>) -> (sent: PendingCall)
    ensures
        sent@ == (PendingCallView {
            headers: call@.headers + sendable(pairs(headers@)),
            ..call@
        }),
{
    let mut call = call;
    let ghost before = call@;
    let mut i: usize = 0;
    while i < headers.len()
        invariant
            i <= headers.len(),
            call@ == (PendingCallView {
                headers: before.headers + sendable(pairs(headers@.take(i as int))),
                ..before
            }),
        decreases headers.len() - i,
    {
        let header = &headers[i];
        proof {
            lemma_sendable_step(headers@, i as int);
        }
        if !header.name.as_str().is_empty() && !header.value.as_str().is_empty() {
            let ghost carried = call.headers@;
            call.headers.push(header.clone());
            assert(pairs(call.headers@) =~= pairs(carried).push(headers@[i as int]@));
            assert(pairs(call.headers@) =~= before.headers + sendable(
                pairs(headers@.take(i + 1)),
            ));
        }
        i += 1;
    }
    assert(headers@.take(headers.len() as int) =~= headers@);
    call
}

/// Taking one more header into account appends it to the sendable ones if
/// it is sendable, and changes nothing if it is not.
proof fn lemma_sendable_step(headers: Seq<HeaderEntry>, i: int)
    requires
        0 <= i < headers.len(),
    ensures
        sendable(pairs(headers.take(i + 1))) == if is_sendable(headers[i]@) {
            sendable(pairs(headers.take(i))).push(headers[i]@)
        } else {
            sendable(pairs(headers.take(i)))
        },
{
    let shorter = pairs(headers.take(i));
    let longer = pairs(headers.take(i + 1));
    assert(longer =~= shorter.push(headers[i]@));
    assert(longer.drop_last() =~= shorter);
    reveal(Seq::filter);
}

} // verus!
