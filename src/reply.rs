//! The HTTP outcome of a request, from what the fetch brought back.
use vstd::prelude::*;
use crate::negotiate::{mime_of, negotiated};
use crate::pipeline::{
    declared_format, is_placeholder_of, renders, source_format, thumbnail, Failure,
};

verus! {

/// What the fetch of the origin image brought back.
#[derive(Debug)]
pub enum Fetched {
    /// No answer could be had, or its body could not be read; the text says why.
    Unavailable(String),
    /// The origin answered.
    Answered {
        /// The HTTP status code.
        status: u16,
        /// The status as text, such as `404 Not Found`.
        status_text: String,
        /// The `content-type` header, where it was present.
        content_type: Option<String>,
        /// The body.
        body: Vec<u8>,
    },
}

/// The body of a reply.
#[derive(Debug)]
pub enum ReplyBody {
    /// Encoded image bytes.
    Image(Vec<u8>),
    /// A human-readable failure description.
    Text(String),
}

/// An HTTP reply: status, optional content type, body.
#[derive(Debug)]
pub struct Reply {
    pub status: u16,
    pub content_type: Option<&'static str>,
    pub body: ReplyBody,
}

/// A 2xx status.
pub open spec fn is_success(status: u16) -> bool {
    200 <= status <= 299
}

/// The status a failure is reported with: 404 for the source, 500 after it.
pub open spec fn failure_status(f: Failure) -> u16 {
    match f {
        Failure::Source(_) => 404,
        Failure::Processing(_) => 500,
    }
}

/// The `Accept` preference as a string; an absent one is empty.
pub open spec fn accept_view(accept: Option<&str>) -> Seq<char> {
    match accept {
        Some(a) => a@,
        None => Seq::empty(),
    }
}

/// A reply with a text body of exactly `t`.
pub open spec fn has_text(r: Reply, t: Seq<char>) -> bool {
    r.body matches ReplyBody::Text(s) && s@ == t
}

/// The terminal reply for a failure: its status and its description, verbatim.
pub fn reply_for_failure(f: Failure) -> (r: Reply)
    ensures
        r.status == failure_status(f),
        r.content_type is None,
        has_text(r, f.spec_description()),
{
    match f {
        Failure::Source(d) => Reply { status: 404, content_type: None, body: ReplyBody::Text(d) },
        Failure::Processing(d) => Reply { status: 500, content_type: None, body: ReplyBody::Text(d) },
    }
}

/// The content type of an answer, as the format lookup reads it.
pub open spec fn content_type_view(content_type: Option<String>) -> Option<Seq<char>> {
    match content_type {
        Some(c) => Some(c@),
        None => None,
    }
}

/// Classifies what the fetch brought back and, where the origin delivered,
/// runs the placeholder pipeline; every failure becomes its terminal reply,
/// with the failure's description as the body.
pub fn respond(fetched: Fetched, accept: Option<&str>) -> (r: Reply)
    ensures
        r.status == 200 || r.status == 404 || r.status == 500,
        r.status == 404 <==> (fetched is Unavailable || !is_success(fetched->status)),
        fetched matches Fetched::Unavailable(d) ==> r.content_type is None && has_text(r, d@),
        fetched matches Fetched::Answered { status, status_text, .. } ==> (!is_success(status) ==> {
            &&& r.content_type is None
            &&& has_text(r, status_text@)
        }),
        fetched matches Fetched::Answered { status, content_type, body, .. } ==> (is_success(status)
            ==> (r.status == 200 <==> renders(body@, declared_format(content_type_view(content_type))))),
        r.status == 200 ==> {
            &&& r.content_type matches Some(c)
            &&& c@ == mime_of(negotiated(accept_view(accept)))
            &&& r.body matches ReplyBody::Image(b)
            &&& b@.len() > 0
        },
        fetched matches Fetched::Answered { content_type, body, .. } ==> (r.status == 200 ==> (
        r.body matches ReplyBody::Image(b) && is_placeholder_of(
            negotiated(accept_view(accept)),
            b@,
            body@,
            declared_format(content_type_view(content_type)),
        ))),
        r.status == 500 ==> {
            &&& r.content_type is None
            &&& r.body matches ReplyBody::Text(t)
            &&& t@.len() > 0
        },
{
    match fetched {
        Fetched::Unavailable(d) => reply_for_failure(Failure::Source(d)),
        Fetched::Answered { status, status_text, content_type, body } => {
            if status < 200 || status > 299 {
                return reply_for_failure(Failure::Source(status_text));
            }
            let format = match &content_type {
                Some(c) => source_format(Some(c.as_str())),
                None => source_format(None),
            };
            let pref: &str = match accept {
                Some(a) => a,
                None => "",
            };
            proof {
                reveal_strlit("");
            }
            assert(pref@ == accept_view(accept));
            match thumbnail(body.as_slice(), format, pref) {
                Ok((f, b)) => Reply {
                    status: 200,
                    content_type: Some(f.mime_type()),
                    body: ReplyBody::Image(b),
                },
                Err(e) => reply_for_failure(e),
            }
        },
    }
}

} // verus!
