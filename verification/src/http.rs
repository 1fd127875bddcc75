//! The error taxonomy of an HTTP client: what can go wrong with a request,
//! and how a failure is labelled and attributed from its status code. The
//! status code travels here as its plain three-digit number; issuing the
//! request and error sources of the transport live with the caller.

use vstd::prelude::*;

verus! {

/// Broad attribution of a failure: the infrastructure's fault or the user's.
#[derive(Clone, Copy, PartialEq, Eq, Structural, Debug)]
pub enum Category {
    Infra,
    User,
}

/// The label under which a status error is reported: `Server` for the 5xx
/// range, `Client` for the 4xx range, `Unknown` otherwise.
pub fn http_error_label(status: u16) -> (r: &'static str)
    ensures
        500 <= status < 600 ==> r@ == "Server"@,
        400 <= status < 500 ==> r@ == "Client"@,
        !(400 <= status < 600) ==> r@ == "Unknown"@,
{
    if 500 <= status && status < 600 {
        "Server"
    } else if 400 <= status && status < 500 {
        "Client"
    } else {
        "Unknown"
    }
}

/// How a status error is attributed: a server error is the infrastructure's
/// fault, a forbidden or not-found answer is the user's, anything else is
/// left unattributed.
pub fn category_from_status(status: u16) -> (r: Option<Category>)
    ensures
        r == spec_category_from_status(status),
{
    if 500 <= status && status < 600 {
        Some(Category::Infra)
    } else if status == 403 || status == 404 {
        Some(Category::User)
    } else {
        None
    }
}

/// The attribution of a status code.
pub open spec fn spec_category_from_status(status: u16) -> Option<Category> {
    if 500 <= status < 600 {
        Some(Category::Infra)
    } else if status == 403 || status == 404 {
        Some(Category::User)
    } else {
        None
    }
}

/// What can go wrong when issuing an HTTP request. Underlying transport
/// errors stay with the caller; the fields here are what the taxonomy reads.
pub enum HttpError {
    /// The URI is malformed.
    InvalidUri { uri: String },
    /// The request could not be built.
    BuildRequest,
    /// The request could not be sent.
    SendRequest { uri: String },
    /// The server answered with a failing status code.
    Status { status: u16, uri: String, text: String },
    /// Too many redirects were followed while fetching the URI.
    TooManyRedirects { uri: String, max_redirects: usize },
    /// A mutation of the request failed.
    MutateRequest,
    /// The request timed out after this many seconds.
    Timeout { uri: String, duration: u64 },
    /// The proxy fronting the request failed.
    X2P { uri: String },
}

/// The attribution of an error: sending failures and timeouts are the
/// infrastructure's fault, a status error is attributed from its code, and
/// the rest is left unattributed.
pub open spec fn spec_error_category(e: HttpError) -> Option<Category> {
    match e {
        HttpError::SendRequest { .. } => Some(Category::Infra),
        HttpError::Timeout { .. } => Some(Category::Infra),
        HttpError::Status { status, .. } => spec_category_from_status(status),
        _ => None,
    }
}

impl HttpError {
    /// How this error is attributed.
    pub fn category(&self) -> (r: Option<Category>)
        ensures
            r == spec_error_category(*self),
    {
        match self {
            HttpError::SendRequest { .. } => Some(Category::Infra),
            HttpError::Timeout { .. } => Some(Category::Infra),
            HttpError::Status { status, .. } => category_from_status(*status),
            _ => None,
        }
    }

    /// The label under which a status error is reported; errors that carry
    /// no status are labelled `Unknown`.
    pub fn label(&self) -> (r: &'static str)
        ensures
            match *self {
                HttpError::Status { status, .. } => (500 <= status < 600 ==> r@ == "Server"@) && (
                400 <= status < 500 ==> r@ == "Client"@) && (!(400 <= status < 600) ==> r@
                    == "Unknown"@),
                _ => r@ == "Unknown"@,
            },
    {
        match self {
            HttpError::Status { status, .. } => http_error_label(*status),
            _ => "Unknown",
        }
    }
}

} // verus!
