//! The failures that the library itself decides on.

use vstd::prelude::*;
use vstd::string::StringExecFns;

verus! {

/// Why an operation was refused.
#[derive(Debug, PartialEq, Eq)]
pub enum ApiError {
    /// The token cannot be sent as the value of a header.
    InvalidHeader,
    /// The service listed no snippet with the title that was looked for.
    NotFound { title: String },
}

/// The mathematical value of an [`ApiError`].
pub enum ApiErrorView {
    InvalidHeader,
    NotFound { title: Seq<char> },
}

impl View for ApiError {
    type V = ApiErrorView;

    open spec fn view(&self) -> ApiErrorView {
        match self {
            ApiError::InvalidHeader => ApiErrorView::InvalidHeader,
            ApiError::NotFound { title } => ApiErrorView::NotFound { title: title@ },
        }
    }
}

/// The text that describes a failure to a person.
pub open spec fn message_of(e: ApiErrorView) -> Seq<char> {
    match e {
        ApiErrorView::InvalidHeader => "failed to parse header value"@,
        ApiErrorView::NotFound { title } => "Could not find snippet: "@ + title,
    }
}

impl ApiError {
    /// Describes the failure; a lookup that found nothing names the title.
    pub fn message(&self) -> (text: String)
        ensures
            text@ == message_of(self@),
    {
        match self {
            ApiError::InvalidHeader => "failed to parse header value".to_owned(),
            ApiError::NotFound { title } => {
                let mut text = "Could not find snippet: ".to_owned();
                text.append(title.as_str());
                text
            },
        }
    }
}

} // verus!
