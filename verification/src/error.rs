//! The fatal failures a paging run can end with, with their exact
//! user-facing wording.
use crate::text::ParseNumError;
use vstd::prelude::*;
use vstd::string::*;

verus! {

/// A fatal failure: none of these is retried.
#[derive(Debug, PartialEq, Eq)]
pub enum Error {
    /// A response status outside the success range (and not the graceful
    /// not-found end of a sequence).
    RequestFailed { url: String, status: String, body: String },
    /// No record array could be located in a response body.
    MalformedResponse { body: String },
    /// The start URL's own `page` query value is not a number a page counter
    /// can continue from.
    PageParse { value: String, details: ParseNumError },
    /// A `next` hint could not be resolved against the start URL.
    UrlResolution { details: String },
    /// The response body is not JSON, or a record could not be re-encoded.
    BodyDecode { details: String },
}

impl Error {
    pub open spec fn message_spec(self) -> Seq<char> {
        match self {
            Error::RequestFailed { url, status, body } => "Error getting "@ + url@ + ": "@
                + status@ + ": "@ + body@,
            Error::MalformedResponse { body } =>
            "Could not read values from response. Expected either {\"values\": [...]} or [...], got: "@
                + body@,
            Error::PageParse { value, details } => "Page query param '"@ + value@
                + "' could not be parsed as a number: "@ + details.message_spec(),
            Error::UrlResolution { details } => details@,
            Error::BodyDecode { details } => details@,
        }
    }

    /// The message a run reports for this failure.
    pub fn message(&self) -> (r: String)
        ensures
            r@ == self.message_spec(),
    {
        let mut r = String::new();
        match self {
            Error::RequestFailed { url, status, body } => {
                r.append("Error getting ");
                r.append(url.as_str());
                r.append(": ");
                r.append(status.as_str());
                r.append(": ");
                r.append(body.as_str());
            },
            Error::MalformedResponse { body } => {
                r.append(
                    "Could not read values from response. Expected either {\"values\": [...]} or [...], got: ",
                );
                r.append(body.as_str());
            },
            Error::PageParse { value, details } => {
                r.append("Page query param '");
                r.append(value.as_str());
                r.append("' could not be parsed as a number: ");
                r.append(details.message());
            },
            Error::UrlResolution { details } => {
                r.append(details.as_str());
            },
            Error::BodyDecode { details } => {
                r.append(details.as_str());
            },
        }
        proof {
            assert(r@ =~= self.message_spec());
        }
        r
    }
}

} // verus!
