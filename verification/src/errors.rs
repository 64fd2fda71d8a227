use vstd::prelude::*;

verus! {

/// The closed set of failures an API call can produce. `Network` means the
/// transport could not complete, `Status` that the remote reported a
/// non-success code at either the HTTP or the application layer, and
/// `Parse` that the body matched neither accepted shape or lacked a
/// required field. All three are recoverable by the callers.
#[derive(Debug)]
pub enum ApiError {
    Network(String),
    Status(i64, String),
    Parse(String),
}

/// The mathematical shape of an API failure.
pub enum ApiErrorV {
    Network(Seq<char>),
    Status(int, Seq<char>),
    Parse(Seq<char>),
}

impl View for ApiError {
    type V = ApiErrorV;

    open spec fn view(&self) -> ApiErrorV {
        match self {
            ApiError::Network(d) => ApiErrorV::Network(d@),
            ApiError::Status(c, m) => ApiErrorV::Status(*c as int, m@),
            ApiError::Parse(d) => ApiErrorV::Parse(d@),
        }
    }
}

} // verus!
