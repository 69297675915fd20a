//! The errors the library reports to the application.

use vstd::prelude::*;

verus! {

/// `url::ParseError`, the error of the URL parser, carried through unchanged.
#[verifier::external_type_specification]
#[verifier::external_body]
pub struct ExUrlParseError(url::ParseError);

/// Why an operation of the library was refused.
#[derive(Debug)]
pub enum ServiceError {
    /// The saved or entered configuration is missing or invalid.
    Configuration(String),
    /// iSolarCloud answered with an error, or with a reply the library cannot use.
    Api(String),
    /// A URL could not be parsed.
    Url(url::ParseError),
}

/// The result is a configuration error with this message.
pub open spec fn is_configuration_error<T>(r: Result<T, ServiceError>, message: Seq<char>) -> bool {
    match r {
        Err(ServiceError::Configuration(m)) => m@ == message,
        _ => false,
    }
}

/// The result is an API error with this message.
pub open spec fn is_api_error<T>(r: Result<T, ServiceError>, message: Seq<char>) -> bool {
    match r {
        Err(ServiceError::Api(m)) => m@ == message,
        _ => false,
    }
}

/// The result is a URL parse error.
pub open spec fn is_url_error<T>(r: Result<T, ServiceError>) -> bool {
    r matches Err(ServiceError::Url(_))
}

} // verus!
