//! Plain descriptions of one HTTP exchange: what is sent and what came back.

use vstd::prelude::*;

verus! {

/// The HTTP verbs that the service's endpoints use.
#[derive(Clone, Copy, Debug, PartialEq, Eq, Structural)]
pub enum HttpVerb {
    Get,
    Post,
    Put,
    Delete,
}

/// Mathematical model of an [`ApiRequest`].
pub struct ApiRequestView {
    pub verb: HttpVerb,
    pub url: Seq<char>,
    pub sends_body: bool,
}

/// One request, ready to be handed to a transport.
#[derive(Clone, Debug)]
pub struct ApiRequest {
    /// Verb of the request.
    pub verb: HttpVerb,
    /// Complete URL, query string included.
    pub url: String,
    /// Whether a JSON body travels with the request.
    pub sends_body: bool,
}

impl View for ApiRequest {
    type V = ApiRequestView;

    open spec fn view(&self) -> ApiRequestView {
        ApiRequestView { verb: self.verb, url: self.url@, sends_body: self.sends_body }
    }
}

/// Why an operation did not yield a payload.
#[derive(Clone, Debug)]
pub enum SquareApiError {
    /// The round trip itself failed; the text says how.
    Transport { message: String },
    /// The service answered with a status outside the success range; `body`
    /// is the error document it sent.
    Status { code: u16, body: String },
    /// The payload did not match the expected schema; the text says how.
    Deserialize { message: String },
}

/// What a transport hands back after one round trip.
#[derive(Clone, Debug)]
pub struct HttpResponse {
    /// Status code of the response.
    pub status: u16,
    /// Body of the response, undecoded.
    pub body: String,
}

/// Whether `status` lies in the success range, 200 to 299.
pub open spec fn is_success_status(status: u16) -> bool {
    200 <= status <= 299
}

impl HttpResponse {
    /// Tells whether the response carries a success payload.
    pub fn is_success(&self) -> (ok: bool)
        ensures
            ok == is_success_status(self.status),
    {
        200 <= self.status && self.status <= 299
    }

    /// Hands out the payload of a successful response, and turns any other
    /// response into a status error that keeps the code and the error
    /// document.
    pub fn into_payload(self) -> (outcome: Result<String, SquareApiError>)
        ensures
            match outcome {
                Ok(payload) => is_success_status(self.status) && payload@ == self.body@,
                Err(SquareApiError::Status { code, body }) => !is_success_status(self.status)
                    && code == self.status && body@ == self.body@,
                Err(_) => false,
            },
    {
        if self.is_success() {
            Ok(self.body)
        } else {
            Err(SquareApiError::Status { code: self.status, body: self.body })
        }
    }
}

} // verus!
