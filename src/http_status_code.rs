use vstd::prelude::*;
use vstd::std_specs::convert::{FromSpec, TryFromSpec};

verus! {

/// A standard HTTP status code.
///
/// Each variant stands for exactly one number (see [`HttpStatusCode::code`]),
/// and the numbers that have a variant are those of [`is_valid_code`].
#[derive(Clone, Copy, Debug, PartialEq, Eq, Structural)]
pub enum HttpStatusCode {
    /// 100 Continue
    Continue,
    /// 101 Switching Protocols
    SwitchingProtocols,
    /// 102 Processing (WebDAV)
    Processing,
    /// 103 Early Hints
    EarlyHints,
    /// 200 OK
    Okay,
    /// 201 Created
    Created,
    /// 202 Accepted
    Accepted,
    /// 203 Non-Authoritative Information
    NonAuthoritativeInformation,
    /// 204 No Content
    NoContent,
    /// 205 Reset Content
    ResetContent,
    /// 206 Partial Content
    PartialContent,
    /// 207 Multi-Status (WebDAV)
    MultiStatus,
    /// 208 Already Reported (WebDAV)
    AlreadyReported,
    /// 226 IM Used (HTTP Delta encoding)
    ImUsed,
    /// 300 Multiple Choices
    MultipleChoices,
    /// 301 Moved Permanently
    MovedPermanently,
    /// 302 Found
    Found,
    /// 303 See Other
    SeeOther,
    /// 304 Not Modified
    NotModified,
    /// 307 Temporary Redirect
    TemporaryRedirect,
    /// 308 Permanent Redirect
    PermanentRedirect,
    /// 400 Bad Request
    BadRequest,
    /// 401 Unauthorized
    Unauthorized,
    /// 402 Payment Required
    PaymentRequired,
    /// 403 Forbidden
    Forbidden,
    /// 404 Not Found
    Notfound,
    /// 405 Method Not Allowed
    MethodNotAllowed,
    /// 406 Not Acceptable
    NotAcceptable,
    /// 407 Proxy Authentication Required
    ProxyAuthenticationRequired,
    /// 408 Request Timeout
    RequestTimeout,
    /// 409 Conflict
    Conflict,
    /// 410 Gone
    Gone,
    /// 411 Length Required
    LengthRequired,
    /// 412 Precondition Failed
    PreconditionFailed,
    /// 413 Payload Too Large
    PayloadTooLarge,
    /// 414 URI Too Long
    UriTooLong,
    /// 415 Unsupported Media Type
    UnsupportedMediaType,
    /// 416 Range Not Satisfiable
    RangeNotSatisfiable,
    /// 417 Expectation Failed
    ExpectationFailed,
    /// 421 Misdirected Request
    MisdirectedRequest,
    /// 422 Unprocessable Entity (WebDAV)
    UnprocessableEntity,
    /// 423 Locked (WebDAV)
    Locked,
    /// 424 Failed Dependency (WebDAV)
    FailedDependency,
    /// 425 Too Early
    TooEarly,
    /// 426 Upgrade Required
    UpgradeRequired,
    /// 428 Precondition Required
    PreconditionRequired,
    /// 429 Too Many Requests
    TooManyRequests,
    /// 431 Request Header Fields Too Large
    RequestHeaderFieldsTooLarge,
    /// 451 Unavailable For Legal Reasons
    UnavailableForLegalReasons,
    /// 500 Internal Server Error
    InternalServerError,
    /// 501 Not Implemented
    NotImplemented,
    /// 502 Bad Gateway
    BadGateway,
    /// 503 Service Unavailable
    ServiceUnavailable,
    /// 504 Gateway Timeout
    GatewayTimeout,
    /// 505 HTTP Version Not Supported
    HttpVersionNotSupported,
    /// 506 Variant Also Negotiates
    VariantAlsoNegotiates,
    /// 507 Insufficient Storage (WebDAV)
    InsufficientStorage,
    /// 508 Loop Detected (WebDAV)
    LoopDetected,
    /// 510 Not Extended
    NotExtended,
    /// 511 Network Authentication Required
    NetworkAuthenticationRequired,
}

/// The numbers that name a status code: 100-103, 200-208, 226, 300-304, 307, 308,
/// 400-417, 421-426, 428, 429, 431, 451, 500-508, 510 and 511.
pub open spec fn is_valid_code(n: u16) -> bool {
    ||| 100 <= n <= 103
    ||| 200 <= n <= 208
    ||| n == 226
    ||| 300 <= n <= 304
    ||| n == 307
    ||| n == 308
    ||| 400 <= n <= 417
    ||| 421 <= n <= 426
    ||| n == 428
    ||| n == 429
    ||| n == 431
    ||| n == 451
    ||| 500 <= n <= 508
    ||| n == 510
    ||| n == 511
}

impl HttpStatusCode {
    /// The number of this status code.
    pub open spec fn code(self) -> u16 {
        match self {
            HttpStatusCode::Continue => 100,
            HttpStatusCode::SwitchingProtocols => 101,
            HttpStatusCode::Processing => 102,
            HttpStatusCode::EarlyHints => 103,
            HttpStatusCode::Okay => 200,
            HttpStatusCode::Created => 201,
            HttpStatusCode::Accepted => 202,
            HttpStatusCode::NonAuthoritativeInformation => 203,
            HttpStatusCode::NoContent => 204,
            HttpStatusCode::ResetContent => 205,
            HttpStatusCode::PartialContent => 206,
            HttpStatusCode::MultiStatus => 207,
            HttpStatusCode::AlreadyReported => 208,
            HttpStatusCode::ImUsed => 226,
            HttpStatusCode::MultipleChoices => 300,
            HttpStatusCode::MovedPermanently => 301,
            HttpStatusCode::Found => 302,
            HttpStatusCode::SeeOther => 303,
            HttpStatusCode::NotModified => 304,
            HttpStatusCode::TemporaryRedirect => 307,
            HttpStatusCode::PermanentRedirect => 308,
            HttpStatusCode::BadRequest => 400,
            HttpStatusCode::Unauthorized => 401,
            HttpStatusCode::PaymentRequired => 402,
            HttpStatusCode::Forbidden => 403,
            HttpStatusCode::Notfound => 404,
            HttpStatusCode::MethodNotAllowed => 405,
            HttpStatusCode::NotAcceptable => 406,
            HttpStatusCode::ProxyAuthenticationRequired => 407,
            HttpStatusCode::RequestTimeout => 408,
            HttpStatusCode::Conflict => 409,
            HttpStatusCode::Gone => 410,
            HttpStatusCode::LengthRequired => 411,
            HttpStatusCode::PreconditionFailed => 412,
            HttpStatusCode::PayloadTooLarge => 413,
            HttpStatusCode::UriTooLong => 414,
            HttpStatusCode::UnsupportedMediaType => 415,
            HttpStatusCode::RangeNotSatisfiable => 416,
            HttpStatusCode::ExpectationFailed => 417,
            HttpStatusCode::MisdirectedRequest => 421,
            HttpStatusCode::UnprocessableEntity => 422,
            HttpStatusCode::Locked => 423,
            HttpStatusCode::FailedDependency => 424,
            HttpStatusCode::TooEarly => 425,
            HttpStatusCode::UpgradeRequired => 426,
            HttpStatusCode::PreconditionRequired => 428,
            HttpStatusCode::TooManyRequests => 429,
            HttpStatusCode::RequestHeaderFieldsTooLarge => 431,
            HttpStatusCode::UnavailableForLegalReasons => 451,
            HttpStatusCode::InternalServerError => 500,
            HttpStatusCode::NotImplemented => 501,
            HttpStatusCode::BadGateway => 502,
            HttpStatusCode::ServiceUnavailable => 503,
            HttpStatusCode::GatewayTimeout => 504,
            HttpStatusCode::HttpVersionNotSupported => 505,
            HttpStatusCode::VariantAlsoNegotiates => 506,
            HttpStatusCode::InsufficientStorage => 507,
            HttpStatusCode::LoopDetected => 508,
            HttpStatusCode::NotExtended => 510,
            HttpStatusCode::NetworkAuthenticationRequired => 511,
        }
    }
}

/// The status code of a number, where there is one.
pub open spec fn status_of_code(n: u16) -> Option<HttpStatusCode> {
    match n {
        100 => Some(HttpStatusCode::Continue),
        101 => Some(HttpStatusCode::SwitchingProtocols),
        102 => Some(HttpStatusCode::Processing),
        103 => Some(HttpStatusCode::EarlyHints),
        200 => Some(HttpStatusCode::Okay),
        201 => Some(HttpStatusCode::Created),
        202 => Some(HttpStatusCode::Accepted),
        203 => Some(HttpStatusCode::NonAuthoritativeInformation),
        204 => Some(HttpStatusCode::NoContent),
        205 => Some(HttpStatusCode::ResetContent),
        206 => Some(HttpStatusCode::PartialContent),
        207 => Some(HttpStatusCode::MultiStatus),
        208 => Some(HttpStatusCode::AlreadyReported),
        226 => Some(HttpStatusCode::ImUsed),
        300 => Some(HttpStatusCode::MultipleChoices),
        301 => Some(HttpStatusCode::MovedPermanently),
        302 => Some(HttpStatusCode::Found),
        303 => Some(HttpStatusCode::SeeOther),
        304 => Some(HttpStatusCode::NotModified),
        307 => Some(HttpStatusCode::TemporaryRedirect),
        308 => Some(HttpStatusCode::PermanentRedirect),
        400 => Some(HttpStatusCode::BadRequest),
        401 => Some(HttpStatusCode::Unauthorized),
        402 => Some(HttpStatusCode::PaymentRequired),
        403 => Some(HttpStatusCode::Forbidden),
        404 => Some(HttpStatusCode::Notfound),
        405 => Some(HttpStatusCode::MethodNotAllowed),
        406 => Some(HttpStatusCode::NotAcceptable),
        407 => Some(HttpStatusCode::ProxyAuthenticationRequired),
        408 => Some(HttpStatusCode::RequestTimeout),
        409 => Some(HttpStatusCode::Conflict),
        410 => Some(HttpStatusCode::Gone),
        411 => Some(HttpStatusCode::LengthRequired),
        412 => Some(HttpStatusCode::PreconditionFailed),
        413 => Some(HttpStatusCode::PayloadTooLarge),
        414 => Some(HttpStatusCode::UriTooLong),
        415 => Some(HttpStatusCode::UnsupportedMediaType),
        416 => Some(HttpStatusCode::RangeNotSatisfiable),
        417 => Some(HttpStatusCode::ExpectationFailed),
        421 => Some(HttpStatusCode::MisdirectedRequest),
        422 => Some(HttpStatusCode::UnprocessableEntity),
        423 => Some(HttpStatusCode::Locked),
        424 => Some(HttpStatusCode::FailedDependency),
        425 => Some(HttpStatusCode::TooEarly),
        426 => Some(HttpStatusCode::UpgradeRequired),
        428 => Some(HttpStatusCode::PreconditionRequired),
        429 => Some(HttpStatusCode::TooManyRequests),
        431 => Some(HttpStatusCode::RequestHeaderFieldsTooLarge),
        451 => Some(HttpStatusCode::UnavailableForLegalReasons),
        500 => Some(HttpStatusCode::InternalServerError),
        501 => Some(HttpStatusCode::NotImplemented),
        502 => Some(HttpStatusCode::BadGateway),
        503 => Some(HttpStatusCode::ServiceUnavailable),
        504 => Some(HttpStatusCode::GatewayTimeout),
        505 => Some(HttpStatusCode::HttpVersionNotSupported),
        506 => Some(HttpStatusCode::VariantAlsoNegotiates),
        507 => Some(HttpStatusCode::InsufficientStorage),
        508 => Some(HttpStatusCode::LoopDetected),
        510 => Some(HttpStatusCode::NotExtended),
        511 => Some(HttpStatusCode::NetworkAuthenticationRequired),
        _ => None,
    }
}

/// The error of converting a number that is not a status code.
#[derive(Clone, Copy, Debug, PartialEq, Eq, Structural)]
pub struct HttpStatusCodeParseError {
    /// The number that was rejected.
    pub value: u16,
}

/// The decimal digits of `n`, most significant first, without leading zeros.
pub open spec fn decimal(n: nat) -> Seq<char>
    decreases n,
{
    let d = ((n % 10) as u8 + 48u8) as char;
    if n < 10 {
        seq![d]
    } else {
        decimal(n / 10).push(d)
    }
}

/// The message of a rejected status number.
pub open spec fn parse_error_message(value: u16) -> Seq<char> {
    "Invalid Status Code: "@ + decimal(value as nat)
}

/// Relies on `format!` of std: `{}` writes an integer in decimal, without padding.
#[verifier::external_body]
fn format_invalid_code(value: u16) -> (r: String)
    ensures
        r@ == parse_error_message(value),
{
    format!("Invalid Status Code: {}", value)
}

impl HttpStatusCodeParseError {
    /// A readable message naming the rejected number.
    pub fn to_string(&self) -> (r: String)
        ensures
            r@ == parse_error_message(self.value),
    {
        format_invalid_code(self.value)
    }
}

impl From<HttpStatusCode> for u16 {
    fn from(value: HttpStatusCode) -> u16 {
        match value {
            HttpStatusCode::Continue => 100,
            HttpStatusCode::SwitchingProtocols => 101,
            HttpStatusCode::Processing => 102,
            HttpStatusCode::EarlyHints => 103,
            HttpStatusCode::Okay => 200,
            HttpStatusCode::Created => 201,
            HttpStatusCode::Accepted => 202,
            HttpStatusCode::NonAuthoritativeInformation => 203,
            HttpStatusCode::NoContent => 204,
            HttpStatusCode::ResetContent => 205,
            HttpStatusCode::PartialContent => 206,
            HttpStatusCode::MultiStatus => 207,
            HttpStatusCode::AlreadyReported => 208,
            HttpStatusCode::ImUsed => 226,
            HttpStatusCode::MultipleChoices => 300,
            HttpStatusCode::MovedPermanently => 301,
            HttpStatusCode::Found => 302,
            HttpStatusCode::SeeOther => 303,
            HttpStatusCode::NotModified => 304,
            HttpStatusCode::TemporaryRedirect => 307,
            HttpStatusCode::PermanentRedirect => 308,
            HttpStatusCode::BadRequest => 400,
            HttpStatusCode::Unauthorized => 401,
            HttpStatusCode::PaymentRequired => 402,
            HttpStatusCode::Forbidden => 403,
            HttpStatusCode::Notfound => 404,
            HttpStatusCode::MethodNotAllowed => 405,
            HttpStatusCode::NotAcceptable => 406,
            HttpStatusCode::ProxyAuthenticationRequired => 407,
            HttpStatusCode::RequestTimeout => 408,
            HttpStatusCode::Conflict => 409,
            HttpStatusCode::Gone => 410,
            HttpStatusCode::LengthRequired => 411,
            HttpStatusCode::PreconditionFailed => 412,
            HttpStatusCode::PayloadTooLarge => 413,
            HttpStatusCode::UriTooLong => 414,
            HttpStatusCode::UnsupportedMediaType => 415,
            HttpStatusCode::RangeNotSatisfiable => 416,
            HttpStatusCode::ExpectationFailed => 417,
            HttpStatusCode::MisdirectedRequest => 421,
            HttpStatusCode::UnprocessableEntity => 422,
            HttpStatusCode::Locked => 423,
            HttpStatusCode::FailedDependency => 424,
            HttpStatusCode::TooEarly => 425,
            HttpStatusCode::UpgradeRequired => 426,
            HttpStatusCode::PreconditionRequired => 428,
            HttpStatusCode::TooManyRequests => 429,
            HttpStatusCode::RequestHeaderFieldsTooLarge => 431,
            HttpStatusCode::UnavailableForLegalReasons => 451,
            HttpStatusCode::InternalServerError => 500,
            HttpStatusCode::NotImplemented => 501,
            HttpStatusCode::BadGateway => 502,
            HttpStatusCode::ServiceUnavailable => 503,
            HttpStatusCode::GatewayTimeout => 504,
            HttpStatusCode::HttpVersionNotSupported => 505,
            HttpStatusCode::VariantAlsoNegotiates => 506,
            HttpStatusCode::InsufficientStorage => 507,
            HttpStatusCode::LoopDetected => 508,
            HttpStatusCode::NotExtended => 510,
            HttpStatusCode::NetworkAuthenticationRequired => 511,
        }
    }
}

impl vstd::std_specs::convert::FromSpecImpl<HttpStatusCode> for u16 {
    open spec fn obeys_from_spec() -> bool {
        true
    }

    open spec fn from_spec(v: HttpStatusCode) -> u16 {
        v.code()
    }
}

impl TryFrom<u16> for HttpStatusCode {
    type Error = HttpStatusCodeParseError;

    fn try_from(value: u16) -> Result<HttpStatusCode, HttpStatusCodeParseError> {
        match value {
            100 => Ok(HttpStatusCode::Continue),
            101 => Ok(HttpStatusCode::SwitchingProtocols),
            102 => Ok(HttpStatusCode::Processing),
            103 => Ok(HttpStatusCode::EarlyHints),
            200 => Ok(HttpStatusCode::Okay),
            201 => Ok(HttpStatusCode::Created),
            202 => Ok(HttpStatusCode::Accepted),
            203 => Ok(HttpStatusCode::NonAuthoritativeInformation),
            204 => Ok(HttpStatusCode::NoContent),
            205 => Ok(HttpStatusCode::ResetContent),
            206 => Ok(HttpStatusCode::PartialContent),
            207 => Ok(HttpStatusCode::MultiStatus),
            208 => Ok(HttpStatusCode::AlreadyReported),
            226 => Ok(HttpStatusCode::ImUsed),
            300 => Ok(HttpStatusCode::MultipleChoices),
            301 => Ok(HttpStatusCode::MovedPermanently),
            302 => Ok(HttpStatusCode::Found),
            303 => Ok(HttpStatusCode::SeeOther),
            304 => Ok(HttpStatusCode::NotModified),
            307 => Ok(HttpStatusCode::TemporaryRedirect),
            308 => Ok(HttpStatusCode::PermanentRedirect),
            400 => Ok(HttpStatusCode::BadRequest),
            401 => Ok(HttpStatusCode::Unauthorized),
            402 => Ok(HttpStatusCode::PaymentRequired),
            403 => Ok(HttpStatusCode::Forbidden),
            404 => Ok(HttpStatusCode::Notfound),
            405 => Ok(HttpStatusCode::MethodNotAllowed),
            406 => Ok(HttpStatusCode::NotAcceptable),
            407 => Ok(HttpStatusCode::ProxyAuthenticationRequired),
            408 => Ok(HttpStatusCode::RequestTimeout),
            409 => Ok(HttpStatusCode::Conflict),
            410 => Ok(HttpStatusCode::Gone),
            411 => Ok(HttpStatusCode::LengthRequired),
            412 => Ok(HttpStatusCode::PreconditionFailed),
            413 => Ok(HttpStatusCode::PayloadTooLarge),
            414 => Ok(HttpStatusCode::UriTooLong),
            415 => Ok(HttpStatusCode::UnsupportedMediaType),
            416 => Ok(HttpStatusCode::RangeNotSatisfiable),
            417 => Ok(HttpStatusCode::ExpectationFailed),
            421 => Ok(HttpStatusCode::MisdirectedRequest),
            422 => Ok(HttpStatusCode::UnprocessableEntity),
            423 => Ok(HttpStatusCode::Locked),
            424 => Ok(HttpStatusCode::FailedDependency),
            425 => Ok(HttpStatusCode::TooEarly),
            426 => Ok(HttpStatusCode::UpgradeRequired),
            428 => Ok(HttpStatusCode::PreconditionRequired),
            429 => Ok(HttpStatusCode::TooManyRequests),
            431 => Ok(HttpStatusCode::RequestHeaderFieldsTooLarge),
            451 => Ok(HttpStatusCode::UnavailableForLegalReasons),
            500 => Ok(HttpStatusCode::InternalServerError),
            501 => Ok(HttpStatusCode::NotImplemented),
            502 => Ok(HttpStatusCode::BadGateway),
            503 => Ok(HttpStatusCode::ServiceUnavailable),
            504 => Ok(HttpStatusCode::GatewayTimeout),
            505 => Ok(HttpStatusCode::HttpVersionNotSupported),
            506 => Ok(HttpStatusCode::VariantAlsoNegotiates),
            507 => Ok(HttpStatusCode::InsufficientStorage),
            508 => Ok(HttpStatusCode::LoopDetected),
            510 => Ok(HttpStatusCode::NotExtended),
            511 => Ok(HttpStatusCode::NetworkAuthenticationRequired),
            _ => Err(HttpStatusCodeParseError { value }),
        }
    }
}

impl vstd::std_specs::convert::TryFromSpecImpl<u16> for HttpStatusCode {
    open spec fn obeys_try_from_spec() -> bool {
        true
    }

    open spec fn try_from_spec(v: u16) -> Result<HttpStatusCode, HttpStatusCodeParseError> {
        match status_of_code(v) {
            Some(c) => Ok(c),
            None => Err(HttpStatusCodeParseError { value: v }),
        }
    }
}

/// Status codes and their numbers correspond one to one: the number of every
/// variant is valid, distinct variants have distinct numbers, and every valid
/// number belongs to some variant.
pub proof fn lemma_code_bijection()
    ensures
        forall|c: HttpStatusCode| is_valid_code(#[trigger] c.code()),
        forall|a: HttpStatusCode, b: HttpStatusCode| #[trigger] a.code() == #[trigger] b.code() ==> a == b,
        forall|n: u16| is_valid_code(n) ==> exists|c: HttpStatusCode| #[trigger] c.code() == n,
{
    assert forall|c: HttpStatusCode| #[trigger] status_of_code(c.code()) == Some(c) && is_valid_code(c.code()) by {
    }
    assert forall|n: u16| is_valid_code(n) implies (#[trigger] status_of_code(n)) matches Some(c) && c.code() == n by {
    }
    assert forall|n: u16| is_valid_code(n) implies exists|c: HttpStatusCode| #[trigger] c.code() == n by {
        let c = status_of_code(n)->Some_0;
        assert(c.code() == n);
    }
    assert forall|a: HttpStatusCode, b: HttpStatusCode| #[trigger] a.code() == #[trigger] b.code() implies a == b by {
        assert(status_of_code(a.code()) == Some(a));
        assert(status_of_code(b.code()) == Some(b));
    }
}

/// Converting a valid number to a status code and back gives the same number;
/// converting any other number fails with an error that carries that number.
pub proof fn lemma_round_trip(n: u16)
    ensures
        is_valid_code(n) ==> (<HttpStatusCode as TryFromSpec<u16>>::try_from_spec(n) matches Ok(c)
            && <u16 as FromSpec<HttpStatusCode>>::from_spec(c) == n),
        !is_valid_code(n) ==> <HttpStatusCode as TryFromSpec<u16>>::try_from_spec(n)
            == Err::<HttpStatusCode, HttpStatusCodeParseError>(HttpStatusCodeParseError { value: n }),
{
    lemma_code_bijection();
}

/// Converting a status code to its number and back gives the same status code.
pub proof fn lemma_code_parses_back(c: HttpStatusCode)
    ensures
        <HttpStatusCode as TryFromSpec<u16>>::try_from_spec(<u16 as FromSpec<HttpStatusCode>>::from_spec(c))
            == Ok::<HttpStatusCode, HttpStatusCodeParseError>(c),
{
    lemma_code_bijection();
    assert(status_of_code(c.code()) == Some(c));
}

} // verus!
