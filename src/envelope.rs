use crate::status::{status_of_code, ApiStatus};
use reqwest::Error as TransportError;
use vstd::prelude::*;

verus! {

/// A failure of the HTTP transport (connection, TLS, or a body that is not the
/// expected JSON); nothing is known of its contents.
#[verifier::external_type_specification]
#[verifier::external_body]
pub struct ExReqwestError(TransportError);

/// Why a call to the API failed.
#[derive(Debug)]
pub enum Error {
    /// The request could not be sent, or its response could not be read.
    RequestError(TransportError),
    /// The API answered with a status other than success.
    ApiError(ApiStatus),
    /// The envelope carried a status code that the API does not document.
    UnknownStatus(u32),
    /// The envelope reported success but carried no payload.
    MissingPayload,
    /// The client lacks the URL or the credentials that the call needs.
    NotConfigured,
}

impl From<TransportError> for Error {
    fn from(error: TransportError) -> Error {
        Error::RequestError(error)
    }
}

impl vstd::std_specs::convert::FromSpecImpl<TransportError> for Error {
    open spec fn obeys_from_spec() -> bool {
        true
    }

    open spec fn from_spec(v: TransportError) -> Error {
        Error::RequestError(v)
    }
}

/// The envelope of a private API response: a status, and the payload that
/// comes with success.
pub struct Response<Data> {
    pub response_data: Option<Data>,
    pub status_code: ApiStatus,
}

/// What an envelope with these two fields amounts to: its payload when the
/// status is success and a payload is there, and the failure otherwise.
pub open spec fn envelope_outcome<T>(response_data: Option<T>, status_code: u32) -> Result<T, Error> {
    match status_of_code(status_code) {
        None => Err(Error::UnknownStatus(status_code)),
        Some(ApiStatus::Success) => match response_data {
            Some(d) => Ok(d),
            None => Err(Error::MissingPayload),
        },
        Some(s) => Err(Error::ApiError(s)),
    }
}

/// Decoding yields a payload exactly for a success envelope that carries one,
/// and then that payload; every other documented status yields its own failure.
pub proof fn lemma_envelope_outcome<T>(response_data: Option<T>, status_code: u32)
    ensures
        envelope_outcome(response_data, status_code) is Ok <==> (status_code == 100
            && response_data is Some),
        envelope_outcome(response_data, status_code) matches Ok(d) ==> response_data == Some(d),
        status_of_code(status_code) matches Some(s) ==> (s != ApiStatus::Success ==> envelope_outcome(
            response_data,
            status_code,
        ) == Err::<T, Error>(Error::ApiError(s))),
{
}

impl<T> Response<T> {
    /// Whether the envelope reports success.
    pub fn is_success(&self) -> (r: bool)
        ensures
            r == (self.status_code == ApiStatus::Success),
    {
        match self.status_code {
            ApiStatus::Success => true,
            _ => false,
        }
    }

    /// Builds an envelope from its two fields as they were read; a status code
    /// that the API does not document is refused.
    pub fn from_parts(response_data: Option<T>, status_code: u32) -> (r: Result<Response<T>, Error>)
        ensures
            status_of_code(status_code) is None ==> r == Err::<Response<T>, Error>(
                Error::UnknownStatus(status_code),
            ),
            status_of_code(status_code) matches Some(s) ==> (r matches Ok(e) && e.status_code == s
                && e.response_data == response_data),
    {
        match ApiStatus::from_code(status_code) {
            Some(s) => Ok(Response { response_data, status_code: s }),
            None => Err(Error::UnknownStatus(status_code)),
        }
    }

    /// The payload of a successful envelope, or the status it failed with.
    pub fn into_result(self) -> (r: Result<T, Error>)
        ensures
            self.status_code == ApiStatus::Success ==> r == match self.response_data {
                Some(d) => Ok(d),
                None => Err(Error::MissingPayload),
            },
            self.status_code != ApiStatus::Success ==> r == Err::<T, Error>(
                Error::ApiError(self.status_code),
            ),
    {
        if self.is_success() {
            match self.response_data {
                Some(d) => Ok(d),
                None => Err(Error::MissingPayload),
            }
        } else {
            Err(Error::ApiError(self.status_code))
        }
    }
}

/// Decodes an envelope read as a payload and a numeric status code: the payload
/// on success, the API's failure for any other documented code, and a decoding
/// failure for an undocumented one.
pub fn decode_envelope<T>(response_data: Option<T>, status_code: u32) -> (r: Result<T, Error>)
    ensures
        r == envelope_outcome(response_data, status_code),
{
    match Response::from_parts(response_data, status_code) {
        Ok(envelope) => envelope.into_result(),
        Err(e) => Err(e),
    }
}

} // verus!
