//! The lookup client: what it is configured with, the request it sends, and
//! how it reads what comes back. Sending the request is left to the caller's
//! transport.
use vstd::prelude::*;
use crate::decimal::{decimal, push_decimal};
use crate::error::FetchError;
use crate::json::{field, json_text, parse_json, Json, JsonModel};
use crate::models::{
    decode_holiday, decode_response, holidays_view, lemma_envelope_keeps_holidays, ApiResponse,
    Holiday, HolidayView,
};

verus! {

/// The provider's holidays endpoint.
pub const DEFAULT_BASE_URL: &'static str = "https://calendarific.com/api/v2/holidays";

/// A client of the holidays service: the API key and the endpoint that
/// requests go to.
pub struct CalendarificClient {
    pub api_key: String,
    pub base_url: String,
}

/// What the transport reports for the one request of a lookup.
pub enum Reply {
    /// An answer came, with this HTTP status and body.
    Received { status: u16, body: String },
    /// No answer came: the connection, TLS or a timeout failed, or the body
    /// could not be read.
    TransportFailed,
}

/// The address of the lookup of `country` and `year`: the base URL with the
/// query parameters `api_key`, `country` and `year`, in that order, the year
/// in decimal.
pub open spec fn holidays_url(base_url: Seq<char>, api_key: Seq<char>, country: Seq<char>, year: int) -> Seq<char> {
    base_url + "?api_key="@ + api_key + "&country="@ + country + "&year="@ + decimal(year)
}

pub open spec fn is_success(status: u16) -> bool {
    200 <= status < 300
}

/// The outcome of a lookup whose answer had `status` and whose body read as
/// `document` (`None`: not JSON). A well-formed envelope gives its holidays
/// whatever the status; otherwise a success status means the body is
/// malformed, and any other status is a failure of the exchange.
pub open spec fn outcome(status: u16, document: Option<JsonModel>) -> Result<Seq<HolidayView>, FetchError> {
    match document {
        Some(d) => match decode_response(d) {
            Some(r) => Ok(r.holidays),
            None => if is_success(status) {
                Err(FetchError::MalformedPayload)
            } else {
                Err(FetchError::NetworkError)
            },
        },
        None => if is_success(status) {
            Err(FetchError::MalformedPayload)
        } else {
            Err(FetchError::NetworkError)
        },
    }
}

/// The outcome of a lookup given what the transport reported.
pub open spec fn reply_outcome(reply: Reply) -> Result<Seq<HolidayView>, FetchError> {
    match reply {
        Reply::Received { status, body } => outcome(status, json_text(body@)),
        Reply::TransportFailed => Err(FetchError::NetworkError),
    }
}

/// `r` holds, as records, the holidays of the outcome `o`, or its error.
pub open spec fn holidays_match(r: Result<Vec<Holiday>, FetchError>, o: Result<Seq<HolidayView>, FetchError>) -> bool {
    match r {
        Ok(l) => o == Ok::<Seq<HolidayView>, FetchError>(holidays_view(l@)),
        Err(e) => o == Err::<Seq<HolidayView>, FetchError>(e),
    }
}

/// A lookup whose answer holds a well-formed envelope gives one holiday for
/// each element of the envelope's `response.holidays`, in the provider's
/// order, whatever the status.
pub proof fn lemma_reply_keeps_provider_order(
    status: u16,
    body: String,
    m: Seq<(Seq<char>, JsonModel)>,
    r: Seq<(Seq<char>, JsonModel)>,
    items: Seq<JsonModel>,
)
    requires
        json_text(body@) == Some(JsonModel::Object(m)),
        field(m, "response"@) == Some(JsonModel::Object(r)),
        field(r, "holidays"@) == Some(JsonModel::Array(items)),
        decode_response(JsonModel::Object(m)) is Some,
    ensures
        reply_outcome(Reply::Received { status, body }) matches Ok(hs) && hs.len() == items.len()
            && forall|i: int| 0 <= i < items.len() ==> Some(#[trigger] hs[i]) == decode_holiday(items[i]),
{
    lemma_envelope_keeps_holidays(m, r, items);
}

impl CalendarificClient {
    /// A client with the given API key, for the provider's endpoint.
    pub fn new(api_key: &str) -> (r: CalendarificClient)
        ensures
            r.api_key@ == api_key@,
            r.base_url@ == DEFAULT_BASE_URL@,
    {
        CalendarificClient {
            api_key: String::from_str(api_key),
            base_url: String::from_str(DEFAULT_BASE_URL),
        }
    }

    /// A client with the given API key, for another endpoint.
    pub fn with_base_url(api_key: &str, base_url: &str) -> (r: CalendarificClient)
        ensures
            r.api_key@ == api_key@,
            r.base_url@ == base_url@,
    {
        CalendarificClient { api_key: String::from_str(api_key), base_url: String::from_str(base_url) }
    }

    /// The address that the lookup of `country` and `year` requests with GET.
    pub fn request_url(&self, country: &str, year: i32) -> (r: String)
        ensures
            r@ == holidays_url(self.base_url@, self.api_key@, country@, year as int),
    {
        let mut url = self.base_url.clone();
        url.append("?api_key=");
        url.append(self.api_key.as_str());
        url.append("&country=");
        url.append(country);
        url.append("&year=");
        push_decimal(&mut url, year);
        url
    }

    /// The holidays of a lookup whose answer had `status` and whose body read
    /// as `document` (`None`: the body is not JSON), in the provider's order.
    pub fn holidays_from_document(status: u16, document: &Option<Json>) -> (r: Result<Vec<Holiday>, FetchError>)
        ensures
            holidays_match(
                r,
                outcome(
                    status,
                    match document {
                        Some(d) => Some(d@),
                        None => None,
                    },
                ),
            ),
    {
        let failure = if 200 <= status && status < 300 {
            FetchError::MalformedPayload
        } else {
            FetchError::NetworkError
        };
        match document {
            Some(d) => match ApiResponse::from_json(d) {
                Ok(api_response) => Ok(api_response.response.holidays),
                Err(_) => Err(failure),
            },
            None => Err(failure),
        }
    }

    /// The holidays of a lookup, given what the transport reported for its
    /// request: a failed transport gives `NetworkError`; an answer is read as
    /// `holidays_from_document` says.
    pub fn holidays_from_reply(reply: &Reply) -> (r: Result<Vec<Holiday>, FetchError>)
        ensures
            holidays_match(r, reply_outcome(*reply)),
    {
        match reply {
            Reply::Received { status, body } => {
                let document = parse_json(body.as_str());
                CalendarificClient::holidays_from_document(*status, &document)
            },
            Reply::TransportFailed => Err(FetchError::NetworkError),
        }
    }
}

} // verus!
