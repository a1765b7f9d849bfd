//! The error taxonomy of the JSON HTTP API around the store: a failed
//! operation becomes a stable three-field wire body plus an HTTP status,
//! and structural decode failures of inbound bodies map to fine-grained
//! application error codes through a closed table.

use vstd::prelude::*;
use vstd::pervasive::unreached;

verus! {

/// The wire body of a failed operation, exactly
/// `{ "code": <u16>, "errno": <u16>, "error": "<string>" }`.
#[derive(Debug)]
pub struct ErrorBody {
    /// The HTTP status's numeric value.
    pub code: u16,
    /// The fine-grained application error code.
    pub errno: u16,
    /// The status's canonical reason phrase.
    pub error: String,
}

/// An HTTP status as the mapper reads it: its numeric code and, where one
/// exists, its canonical reason phrase.
#[derive(Debug)]
pub struct HttpStatus {
    pub code: u16,
    pub reason: Option<String>,
}

impl HttpStatus {
    /// 400 Bad Request, the status every decode failure maps to.
    pub fn bad_request() -> (r: HttpStatus)
        ensures
            r.code == 400,
            r.reason matches Some(phrase) && phrase@ == "Bad Request"@,
    {
        HttpStatus { code: 400, reason: Some("Bad Request".to_owned()) }
    }
}

/// The error value a failed endpoint call resolves to: the HTTP status to
/// respond with, and the wire body to serialize.
#[derive(Debug)]
pub struct EndpointError {
    pub status: u16,
    pub body: ErrorBody,
}

impl EndpointError {
    /// Builds the error value for a status and an errno. The canonical
    /// reason phrase must exist for every status this is invoked with —
    /// an unnamed status is a programming error, not a runtime condition
    /// to recover from, so such inputs are excluded outright.
    pub fn with(status: HttpStatus, errno: u16) -> (r: EndpointError)
        requires
            status.reason is Some,
        ensures
            r.status == status.code,
            r.body.code == status.code,
            r.body.errno == errno,
            status.reason matches Some(phrase) ==> r.body.error@ == phrase@,
    {
        match status.reason {
            Some(error) => EndpointError {
                status: status.code,
                body: ErrorBody { code: status.code, errno: errno, error },
            },
            None => unreached(),
        }
    }
}

/// A structural decode failure of an inbound JSON body, as the mapper
/// reads it: a required field was missing, or the body was malformed in
/// some other way.
pub enum DecodeFailure {
    MissingField(String),
    Malformed,
}

/// The errno of a decode failure: a closed table, reproduced exactly for
/// wire compatibility — a missing `"domain"` field is 100, a missing
/// `"tunnel_configured"` field is 101, and anything else is 400.
pub open spec fn decode_errno(failure: DecodeFailure) -> u16 {
    match failure {
        DecodeFailure::MissingField(field) => if field@ == "domain"@ {
            100
        } else if field@ == "tunnel_configured"@ {
            101
        } else {
            400
        },
        DecodeFailure::Malformed => 400,
    }
}

/// Maps a decode failure to its error value: HTTP 400 Bad Request in every
/// branch, with the errno drawn from the closed table.
pub fn from_decoder_error(error: DecodeFailure) -> (r: EndpointError)
    ensures
        r.status == 400,
        r.body.code == 400,
        r.body.errno == decode_errno(error),
        r.body.error@ == "Bad Request"@,
{
    let errno: u16 = match &error {
        DecodeFailure::MissingField(field) => {
            let domain = "domain".to_owned();
            let tunnel = "tunnel_configured".to_owned();
            if *field == domain {
                100
            } else if *field == tunnel {
                101
            } else {
                400
            }
        },
        DecodeFailure::Malformed => 400,
    };
    EndpointError::with(HttpStatus::bad_request(), errno)
}

/// Law: the three branches of the errno table stay apart — a missing
/// `"domain"` field yields 100, a missing `"tunnel_configured"` field
/// yields 101, any other missing field yields 400, and a malformed body
/// yields 400.
pub proof fn lemma_decode_errno_table(field: String)
    ensures
        field@ == "domain"@ ==> decode_errno(DecodeFailure::MissingField(field)) == 100,
        field@ == "tunnel_configured"@ ==> decode_errno(DecodeFailure::MissingField(field))
            == 101,
        field@ != "domain"@ && field@ != "tunnel_configured"@ ==> decode_errno(
            DecodeFailure::MissingField(field),
        ) == 400,
        decode_errno(DecodeFailure::Malformed) == 400,
{
    reveal_strlit("domain");
    reveal_strlit("tunnel_configured");
    assert("domain"@.len() == 6);
    assert("tunnel_configured"@.len() == 17);
    assert("domain"@ != "tunnel_configured"@);
}

} // verus!
