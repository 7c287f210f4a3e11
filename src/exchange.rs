use vstd::prelude::*;
use vstd::string::*;

use crate::error::DoiError;
use crate::identifier::{resolver_url, Doi};

verus! {

/// HTTP method of a request to the resolver.
#[derive(Debug, Clone, Copy, PartialEq, Eq, Structural)]
pub enum Method {
    /// Used to follow the redirects to the document's location.
    Head,
    /// Used to fetch metadata.
    Get,
}

/// The form in which metadata is asked for.
#[derive(Debug, Clone, Copy, PartialEq, Eq, Structural)]
pub enum MetadataFormat {
    Json,
    Bibtex,
}

/// The media type that asks the resolver for metadata in format `f`.
pub open spec fn media_type(f: MetadataFormat) -> Seq<char> {
    match f {
        MetadataFormat::Json => "application/json"@,
        MetadataFormat::Bibtex => "application/x-bibtex"@,
    }
}

impl MetadataFormat {
    /// The value of the `Accept` header for this format.
    pub fn media_type(&self) -> (r: &str)
        ensures
            r@ == media_type(*self),
    {
        match self {
            MetadataFormat::Json => "application/json",
            MetadataFormat::Bibtex => "application/x-bibtex",
        }
    }
}

/// A request to send to the resolver service, redirects followed.
#[derive(Debug, Clone)]
pub struct Request {
    pub method: Method,
    pub url: String,
    /// The value of the `Accept` header, if the request has one.
    pub accept: Option<String>,
}

/// What the resolver service answered, after all redirects.
#[derive(Debug, Clone)]
pub struct Answer {
    /// The final status code.
    pub status: u16,
    /// The final URL, after all redirects.
    pub url: String,
    /// The body of the reply; empty for a `HEAD` request.
    pub body: String,
}

/// Whether a resolution ending with `status` succeeds. The resolver answers
/// some successful resolutions with 418 ("I'm a teapot"): that counts as
/// success; any other 4xx or 5xx status does not.
pub open spec fn resolution_accepts(status: u16) -> bool {
    status < 400 || status == 418
}

/// Whether a metadata fetch ending with `status` succeeds: only a 2xx status
/// does.
pub open spec fn fetch_accepts(status: u16) -> bool {
    200 <= status < 300
}

/// A resolution whose reply has status 418 succeeds with the final URL; one
/// whose reply has any other 4xx or 5xx status fails with `Rejected`.
pub proof fn lemma_teapot_resolves(status: u16)
    ensures
        status == 418 ==> resolution_accepts(status),
        400 <= status < 600 && status != 418 ==> !resolution_accepts(status),
{
}

/// The outcome of a resolution, given the reply to its request: the final URL
/// when the status is accepted, `Rejected` with the status when it is not,
/// and `Transport` when no answer came.
pub fn settle_resolution(reply: Result<Answer, String>) -> (r: Result<String, DoiError>)
    ensures
        match reply {
            Ok(a) => if resolution_accepts(a.status) {
                r == Ok::<String, DoiError>(a.url)
            } else {
                r == Err::<String, DoiError>(DoiError::Rejected(a.status))
            },
            Err(m) => r == Err::<String, DoiError>(DoiError::Transport(m)),
        },
{
    match reply {
        Ok(answer) => {
            if answer.status < 400 || answer.status == 418 {
                Ok(answer.url)
            } else {
                Err(DoiError::Rejected(answer.status))
            }
        },
        Err(message) => Err(DoiError::Transport(message)),
    }
}

/// The outcome of a metadata fetch, given the reply to its request: the body
/// when the status is 2xx, `Rejected` with the status when it is not, and
/// `Transport` when no answer came.
pub fn settle_fetch(reply: Result<Answer, String>) -> (r: Result<String, DoiError>)
    ensures
        match reply {
            Ok(a) => if fetch_accepts(a.status) {
                r == Ok::<String, DoiError>(a.body)
            } else {
                r == Err::<String, DoiError>(DoiError::Rejected(a.status))
            },
            Err(m) => r == Err::<String, DoiError>(DoiError::Transport(m)),
        },
{
    match reply {
        Ok(answer) => {
            if 200 <= answer.status && answer.status < 300 {
                Ok(answer.body)
            } else {
                Err(DoiError::Rejected(answer.status))
            }
        },
        Err(message) => Err(DoiError::Transport(message)),
    }
}

impl Doi {
    /// The request that resolves the DOI: a `HEAD` of its resolver URL, or
    /// `NotSet` when the DOI is unset.
    pub fn resolve_request(&self) -> (r: Result<Request, DoiError>)
        ensures
            match self@ {
                None => r == Err::<Request, DoiError>(DoiError::NotSet),
                Some(d) => r matches Ok(q) && q.method == Method::Head && q.url@ == resolver_url(d)
                    && q.accept is None,
            },
    {
        match self.https_url() {
            Ok(url) => Ok(Request { method: Method::Head, url, accept: None }),
            Err(e) => Err(e),
        }
    }

    /// The request that fetches the DOI's metadata in `format`: a `GET` of its
    /// resolver URL with the format's media type as `Accept` header, or
    /// `NotSet` when the DOI is unset.
    pub fn metadata_request(&self, format: MetadataFormat) -> (r: Result<Request, DoiError>)
        ensures
            match self@ {
                None => r == Err::<Request, DoiError>(DoiError::NotSet),
                Some(d) => r matches Ok(q) && q.method == Method::Get && q.url@ == resolver_url(d)
                    && (q.accept matches Some(a) && a@ == media_type(format)),
            },
    {
        match self.https_url() {
            Ok(url) => Ok(
                Request {
                    method: Method::Get,
                    url,
                    accept: Some(String::from_str(format.media_type())),
                },
            ),
            Err(e) => Err(e),
        }
    }
}

} // verus!
