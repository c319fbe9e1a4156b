//! The REST face of the remote service: what to send and how to read the
//! answer. Sending is left to the caller.

use vstd::prelude::*;
use vstd::string::*;
use vstd::utf8::encode_utf8;
use crate::apis::garoon::{FetchError, GaroonEvent, GaroonGetEventsRequest};
use crate::utils::rfc3339::{rfc3339_seconds_text, to_rfc3339_seconds};

verus! {

/// The standard base64 encoding of `bytes`: the alphabet `A-Z a-z 0-9 + /`,
/// padded with `=` to a multiple of four characters.
pub uninterp spec fn base64_standard_text(bytes: Seq<u8>) -> Seq<char>;

/// Whether the encoding of `len` bytes has a length that fits in `usize`.
pub open spec fn base64_fits(len: nat) -> bool {
    len / 3 * 4 + (if len % 3 == 0 { 0int } else { 4int }) <= usize::MAX
}

/// Calls `Engine::encode` of the base64 crate on its `BASE64_STANDARD`
/// engine. Claims only that the text is a function of the bytes. The
/// precondition leaves out the inputs on which the crate gives up: those
/// whose encoded length overflows.
#[verifier::external_body]
fn base64_standard_encode(bytes: &[u8]) -> (r: String)
    requires
        base64_fits(bytes@.len()),
    ensures
        r@ == base64_standard_text(bytes@),
{
    base64::Engine::encode(&base64::prelude::BASE64_STANDARD, bytes)
}

/// The account that requests are made for.
pub struct GaroonAuth {
    pub user_id: String,
    pub password: String,
}

impl GaroonAuth {
    /// User and password joined by a colon.
    pub open spec fn credentials(self) -> Seq<char> {
        self.user_id@ + ":"@ + self.password@
    }

    /// Whether the credentials are short enough to be encoded.
    pub open spec fn encodable(self) -> bool {
        base64_fits(encode_utf8(self.credentials()).len())
    }

    fn credentials_text(&self) -> (r: String)
        ensures
            r@ == self.credentials(),
    {
        let mut text = self.user_id.clone();
        text.append(":");
        text.append(self.password.as_str());
        text
    }

    /// Whether the credentials are short enough to be encoded.
    pub fn is_encodable(&self) -> (r: bool)
        ensures
            r == self.encodable(),
    {
        let text = self.credentials_text();
        let len = text.as_str().as_bytes().len();
        let padding: u128 = if len % 3 == 0 {
            0
        } else {
            4
        };
        (len / 3) as u128 * 4 + padding <= usize::MAX as u128
    }

    /// The value of the authorization header: the credentials in UTF-8,
    /// base64 encoded.
    pub fn cyboze_authorization(&self) -> (r: String)
        requires
            self.encodable(),
        ensures
            r@ == base64_standard_text(encode_utf8(self.credentials())),
    {
        let text = self.credentials_text();
        base64_standard_encode(text.as_str().as_bytes())
    }
}

/// The body of a successful answer.
#[derive(Clone, Debug, PartialEq, Eq)]
pub struct GaroonEventResponse {
    pub events: Vec<GaroonEvent>,
}

/// One request header.
#[derive(Clone, Debug, PartialEq, Eq)]
pub struct Header {
    pub name: String,
    pub value: String,
}

/// A GET request, ready to be sent.
#[derive(Clone, Debug, PartialEq, Eq)]
pub struct HttpRequest {
    pub url: String,
    pub headers: Vec<Header>,
    pub query: Vec<(&'static str, String)>,
}

/// What came of sending a request.
#[derive(Clone, Debug, PartialEq, Eq)]
pub enum HttpOutcome {
    /// No answer arrived; the text says why.
    Failed(String),
    /// An answer arrived. `body` is `None` where it could not be read as a
    /// list of events.
    Answered { status: u16, body: Option<GaroonEventResponse> },
}

/// Whether `status` reports success.
pub open spec fn is_success(status: u16) -> bool {
    200 <= status <= 299
}

/// What a fetch returns for each outcome of the request.
pub open spec fn interpretation(
    outcome: HttpOutcome,
    result: Result<Vec<GaroonEvent>, FetchError>,
) -> bool {
    match outcome {
        HttpOutcome::Failed(reason) => result matches Err(FetchError::Transport(text)) && text@
            == reason@,
        HttpOutcome::Answered { status, body } => if !is_success(status) {
            result == Err::<Vec<GaroonEvent>, FetchError>(FetchError::HttpStatus(status))
        } else {
            match body {
                None => result == Err::<Vec<GaroonEvent>, FetchError>(FetchError::ResponseFormat),
                Some(response) => result == Ok::<Vec<GaroonEvent>, FetchError>(response.events),
            }
        },
    }
}

/// Reads the outcome of a request: the events of a successful, well-formed
/// answer, else the failure.
pub fn interpret(outcome: HttpOutcome) -> (r: Result<Vec<GaroonEvent>, FetchError>)
    ensures
        interpretation(outcome, r),
{
    match outcome {
        HttpOutcome::Failed(reason) => Err(FetchError::Transport(reason)),
        HttpOutcome::Answered { status, body } => {
            if status < 200 || status > 299 {
                Err(FetchError::HttpStatus(status))
            } else {
                match body {
                    None => Err(FetchError::ResponseFormat),
                    Some(response) => Ok(response.events),
                }
            }
        },
    }
}

/// Builds the requests for one account at one installation of the service.
pub struct GaroonRestClient {
    base_url: String,
    auth: GaroonAuth,
}

impl GaroonRestClient {
    #[verifier::type_invariant]
    spec fn account_encodable(self) -> bool {
        self.auth.encodable()
    }

    /// Address of the installation, without the path.
    pub closed spec fn base(self) -> Seq<char> {
        self.base_url@
    }

    /// The account that requests are made for.
    pub closed spec fn account(self) -> GaroonAuth {
        self.auth
    }

    /// A builder of requests to the installation at `base_url` for the
    /// account `auth`, whose credentials must be short enough to encode.
    pub fn new(base_url: String, auth: GaroonAuth) -> (r: GaroonRestClient)
        requires
            auth.encodable(),
        ensures
            r.base() == base_url@,
            r.account() == auth,
    {
        GaroonRestClient { base_url, auth }
    }

    /// Path of the event listing below the base address.
    pub fn get_events_path(&self) -> (r: &'static str)
        ensures
            r@ == "/api/v1/schedule/events"@,
    {
        "/api/v1/schedule/events"
    }

    /// The headers of every request, in this order: what is accepted, then
    /// the authorization.
    pub open spec fn header_list(self, headers: Seq<Header>) -> bool {
        &&& headers.len() == 2
        &&& headers[0].name@ == "Accept"@
        &&& headers[0].value@ == "application/json; charset=UTF-8"@
        &&& headers[1].name@ == "X-Cybozu-Authorization"@
        &&& headers[1].value@ == base64_standard_text(encode_utf8(self.account().credentials()))
    }

    /// The headers of every request.
    pub fn headers(&self) -> (r: Vec<Header>)
        ensures
            self.header_list(r@),
    {
        proof {
            use_type_invariant(self);
        }
        let mut headers: Vec<Header> = Vec::new();
        headers.push(
            Header {
                name: String::from_str("Accept"),
                value: String::from_str("application/json; charset=UTF-8"),
            },
        );
        headers.push(
            Header {
                name: String::from_str("X-Cybozu-Authorization"),
                value: self.auth.cyboze_authorization(),
            },
        );
        headers
    }

    /// The query of a request for `request`: the bounds of its period, each
    /// in RFC 3339 in UTC to the whole second.
    pub open spec fn query_list(
        request: GaroonGetEventsRequest,
        query: Seq<(&'static str, String)>,
    ) -> bool {
        &&& query.len() == 2
        &&& query[0].0@ == "rangeStart"@
        &&& query[0].1@ == rfc3339_seconds_text(
            request.period.start_point().seconds(),
            request.period.start_point().subsec_nanos(),
        )
        &&& query[1].0@ == "rangeEnd"@
        &&& query[1].1@ == rfc3339_seconds_text(
            request.period.end_point().seconds(),
            request.period.end_point().subsec_nanos(),
        )
    }

    /// The query parameters that ask for the period of `request`.
    pub fn range_query(&self, request: GaroonGetEventsRequest) -> (r: Vec<(&'static str, String)>)
        ensures
            GaroonRestClient::query_list(request, r@),
    {
        let start = request.period.start();
        let end = request.period.end();
        let mut query: Vec<(&'static str, String)> = Vec::new();
        query.push(("rangeStart", to_rfc3339_seconds(&start)));
        query.push(("rangeEnd", to_rfc3339_seconds(&end)));
        query
    }

    /// The request that fetches the events of `request`.
    pub fn request(&self, request: GaroonGetEventsRequest) -> (r: HttpRequest)
        ensures
            r.url@ == self.base() + "/api/v1/schedule/events"@,
            self.header_list(r.headers@),
            GaroonRestClient::query_list(request, r.query@),
    {
        let mut url = self.base_url.clone();
        url.append(self.get_events_path());
        HttpRequest { url, headers: self.headers(), query: self.range_query(request) }
    }
}

} // verus!
