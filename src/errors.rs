use vstd::prelude::*;

verus! {

#[verifier::external_type_specification]
#[verifier::external_body]
pub struct ExParseError(url::ParseError);

/// The closed set of failures the gateway reports, each with a fixed HTTP status.
///
/// Variants that wrap a backend failure carry that failure's message.
#[derive(Debug, PartialEq, Eq)]
pub enum ApiError {
    InternalServerError,
    NotFound,
    NotFoundPlaybook(String),
    FailedToCreatePlaybook(String),
    FailedToDeletePlaybook(String),
    FailedToStartPlaybook(String),
    NotFoundContent(String),
    InvalidRepoAddress(url::ParseError),
    NotFoundFolder(String),
    FailedToSynchronize(String),
    BadPlaybook(String),
    NotFoundRepo(String),
    BadPlaybookRequest(String),
    /// The operation is declared but not offered yet.
    NotImplemented(String),
}

/// The HTTP status that goes with each kind of failure.
pub open spec fn status_of(e: ApiError) -> u16 {
    match e {
        ApiError::InternalServerError => 500,
        ApiError::NotFound => 404,
        ApiError::NotFoundPlaybook(_) => 404,
        ApiError::FailedToCreatePlaybook(_) => 400,
        ApiError::FailedToDeletePlaybook(_) => 500,
        ApiError::FailedToStartPlaybook(_) => 500,
        ApiError::NotFoundContent(_) => 404,
        ApiError::InvalidRepoAddress(_) => 500,
        ApiError::NotFoundFolder(_) => 404,
        ApiError::FailedToSynchronize(_) => 500,
        ApiError::BadPlaybook(_) => 400,
        ApiError::NotFoundRepo(_) => 500,
        ApiError::BadPlaybookRequest(_) => 400,
        ApiError::NotImplemented(_) => 501,
    }
}

/// Relies on the `Display` impl of url::ParseError for the error's text.
#[verifier::external_body]
fn parse_error_text(e: &url::ParseError) -> (r: String) {
    e.to_string()
}

impl ApiError {
    /// The HTTP status code of this failure.
    pub fn status(&self) -> (r: u16)
        ensures
            r == status_of(*self),
    {
        match self {
            ApiError::InternalServerError => 500,
            ApiError::NotFound => 404,
            ApiError::NotFoundPlaybook(_) => 404,
            ApiError::FailedToCreatePlaybook(_) => 400,
            ApiError::FailedToDeletePlaybook(_) => 500,
            ApiError::FailedToStartPlaybook(_) => 500,
            ApiError::NotFoundContent(_) => 404,
            ApiError::InvalidRepoAddress(_) => 500,
            ApiError::NotFoundFolder(_) => 404,
            ApiError::FailedToSynchronize(_) => 500,
            ApiError::BadPlaybook(_) => 400,
            ApiError::NotFoundRepo(_) => 500,
            ApiError::BadPlaybookRequest(_) => 400,
            ApiError::NotImplemented(_) => 501,
        }
    }

    /// The text placed under `"message"` in the JSON error body.
    ///
    /// The two bare kinds have a fixed text; the others report what they carry.
    pub fn message(&self) -> (r: String)
        ensures
            *self == ApiError::InternalServerError ==> r@ == "Internal Server Error"@,
            *self == ApiError::NotFound ==> r@ == "Not Found"@,
            match *self {
                ApiError::NotFoundPlaybook(m) => r@ == m@,
                ApiError::FailedToCreatePlaybook(m) => r@ == m@,
                ApiError::FailedToDeletePlaybook(m) => r@ == m@,
                ApiError::FailedToStartPlaybook(m) => r@ == m@,
                ApiError::NotFoundContent(m) => r@ == m@,
                ApiError::NotFoundFolder(m) => r@ == m@,
                ApiError::FailedToSynchronize(m) => r@ == m@,
                ApiError::BadPlaybook(m) => r@ == m@,
                ApiError::NotFoundRepo(m) => r@ == m@,
                ApiError::BadPlaybookRequest(m) => r@ == m@,
                ApiError::NotImplemented(m) => r@ == m@,
                _ => true,
            },
    {
        match self {
            ApiError::InternalServerError => String::from_str("Internal Server Error"),
            ApiError::NotFound => String::from_str("Not Found"),
            ApiError::NotFoundPlaybook(m) => m.clone(),
            ApiError::FailedToCreatePlaybook(m) => m.clone(),
            ApiError::FailedToDeletePlaybook(m) => m.clone(),
            ApiError::FailedToStartPlaybook(m) => m.clone(),
            ApiError::NotFoundContent(m) => m.clone(),
            ApiError::InvalidRepoAddress(e) => parse_error_text(e),
            ApiError::NotFoundFolder(m) => m.clone(),
            ApiError::FailedToSynchronize(m) => m.clone(),
            ApiError::BadPlaybook(m) => m.clone(),
            ApiError::NotFoundRepo(m) => m.clone(),
            ApiError::BadPlaybookRequest(m) => m.clone(),
            ApiError::NotImplemented(m) => m.clone(),
        }
    }
}

} // verus!
