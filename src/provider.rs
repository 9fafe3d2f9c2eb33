//! The three calls made to the DNS provider, as values, and how the
//! provider's replies are judged.
use vstd::prelude::*;
use vstd::string::StringExecFns;

use crate::typings::{
    records_view, strings_view, DNSListResponse, DNSRecordSpec, DNSResponse, Error, ErrorView,
    RecordView,
};

verus! {

/// The HTTP method of a call to the provider.
#[derive(Clone, Copy, Debug, PartialEq, Eq, Structural)]
pub enum Method {
    Get,
    Post,
    Put,
}

/// One call to the provider: method, full URL and, for writes, the record
/// that is sent as the JSON body.
#[derive(Debug)]
pub struct ProviderRequest {
    pub method: Method,
    pub url: String,
    pub body: Option<DNSRecordSpec>,
}

/// The mathematical value of a [`ProviderRequest`].
pub struct RequestView {
    pub method: Method,
    pub url: Seq<char>,
    pub body: Option<RecordView>,
}

impl View for ProviderRequest {
    type V = RequestView;

    open spec fn view(&self) -> RequestView {
        RequestView {
            method: self.method,
            url: self.url@,
            body: match self.body {
                Some(r) => Some(r@),
                None => None,
            },
        }
    }
}

/// What came back from a call: either the provider could not be reached, or
/// it answered with an HTTP status and a body that did or did not parse.
#[derive(Debug)]
pub enum Reply<T> {
    /// The transport failed; its message.
    Unreachable(String),
    /// The provider answered; the parsed body, or why it did not parse.
    Answered { status: u16, body: Result<T, String> },
}

/// The URL of the records of a zone.
pub open spec fn records_url_of(zone: Seq<char>) -> Seq<char> {
    "https://api.cloudflare.com/client/v4/zones/"@ + zone + "/dns_records"@
}

/// The URL of one record of a zone.
pub open spec fn record_url_of(zone: Seq<char>, id: Seq<char>) -> Seq<char> {
    records_url_of(zone) + "/"@ + id
}

/// `record` with its identifier replaced by `id`.
pub open spec fn with_id(record: RecordView, id: Seq<char>) -> RecordView {
    RecordView { id, ..record }
}

/// The listing of a zone.
pub open spec fn list_request_of(zone: Seq<char>) -> RequestView {
    RequestView { method: Method::Get, url: records_url_of(zone), body: None }
}

/// The creation of `desired` in a zone: the record is sent without identifier.
pub open spec fn create_request_of(zone: Seq<char>, desired: RecordView) -> RequestView {
    RequestView {
        method: Method::Post,
        url: records_url_of(zone),
        body: Some(with_id(desired, Seq::empty())),
    }
}

/// The update of the remote record `id` to `desired`.
pub open spec fn update_request_of(zone: Seq<char>, id: Seq<char>, desired: RecordView) -> RequestView {
    RequestView {
        method: Method::Put,
        url: record_url_of(zone, id),
        body: Some(with_id(desired, id)),
    }
}

/// The URL of the records of `zone`.
pub fn records_url(zone: &String) -> (r: String)
    ensures
        r@ == records_url_of(zone@),
{
    let mut url = String::from_str("https://api.cloudflare.com/client/v4/zones/");
    url.append(zone.as_str());
    url.append("/dns_records");
    url
}

/// The URL of the record `id` of `zone`.
pub fn record_url(zone: &String, id: &String) -> (r: String)
    ensures
        r@ == record_url_of(zone@, id@),
{
    let mut url = records_url(zone);
    url.append("/");
    url.append(id.as_str());
    url
}

impl DNSRecordSpec {
    /// A copy of the record that carries the identifier `id`.
    pub fn with_id(&self, id: String) -> (r: DNSRecordSpec)
        ensures
            r@ == with_id(self@, id@),
    {
        DNSRecordSpec {
            id,
            record_type: self.record_type.clone(),
            name: self.name.clone(),
            content: self.content.clone(),
            proxied: self.proxied,
        }
    }
}

/// The call that lists the records of `zone`.
pub fn list_request(zone: &String) -> (r: ProviderRequest)
    ensures
        r@ == list_request_of(zone@),
{
    ProviderRequest { method: Method::Get, url: records_url(zone), body: None }
}

/// The call that creates `desired` in `zone`.
pub fn create_request(zone: &String, desired: &DNSRecordSpec) -> (r: ProviderRequest)
    ensures
        r@ == create_request_of(zone@, desired@),
{
    let body = desired.with_id(String::new());
    ProviderRequest { method: Method::Post, url: records_url(zone), body: Some(body) }
}

/// The call that turns the remote record `id` of `zone` into `desired`.
pub fn update_request(zone: &String, id: &String, desired: &DNSRecordSpec) -> (r: ProviderRequest)
    ensures
        r@ == update_request_of(zone@, id@, desired@),
{
    let body = desired.with_id(id.clone());
    ProviderRequest { method: Method::Put, url: record_url(zone, id), body: Some(body) }
}

/// An HTTP status in the success range.
pub open spec fn is_success_status(status: u16) -> bool {
    200 <= status < 300
}

/// Relies on http's `StatusCode::from_u16`, which accepts 100 to 999, and on
/// `StatusCode::is_success`, which holds of 200 to 299.
#[verifier::external_body]
pub(crate) fn status_is_success(status: u16) -> (r: bool)
    ensures
        r == is_success_status(status),
{
    match hyper::StatusCode::from_u16(status) {
        Ok(code) => code.is_success(),
        Err(_) => false,
    }
}

/// A refusal by the provider with its own error strings.
pub open spec fn rejection(status: u16, errors: Seq<String>) -> ErrorView {
    ErrorView::ProviderRejection { status, errors: strings_view(errors) }
}

/// How a reply to a listing is judged: unreachable is a network error; a
/// status outside the success range or `success: false` is a rejection that
/// carries the provider's errors where the body parsed; a body that did not
/// parse under a success status is a protocol error.
pub open spec fn list_verdict(reply: Reply<DNSListResponse>) -> Result<Seq<RecordView>, ErrorView> {
    match reply {
        Reply::Unreachable(m) => Err(ErrorView::NetworkError(m@)),
        Reply::Answered { status, body } => match body {
            Err(m) => if is_success_status(status) {
                Err(ErrorView::ProtocolError(m@))
            } else {
                Err(rejection(status, Seq::empty()))
            },
            Ok(b) => if is_success_status(status) && b.success {
                Ok(records_view(b.result@))
            } else {
                Err(rejection(status, b.errors@))
            },
        },
    }
}

/// How a reply to a create or an update is judged, by the rules of
/// [`list_verdict`].
pub open spec fn write_verdict(reply: Reply<DNSResponse>) -> Result<RecordView, ErrorView> {
    match reply {
        Reply::Unreachable(m) => Err(ErrorView::NetworkError(m@)),
        Reply::Answered { status, body } => match body {
            Err(m) => if is_success_status(status) {
                Err(ErrorView::ProtocolError(m@))
            } else {
                Err(rejection(status, Seq::empty()))
            },
            Ok(b) => if is_success_status(status) && b.success {
                Ok(b.result@)
            } else {
                Err(rejection(status, b.errors@))
            },
        },
    }
}

/// The value of a judged listing.
pub open spec fn listed_view(r: Result<Vec<DNSRecordSpec>, Error>) -> Result<Seq<RecordView>, ErrorView> {
    match r {
        Ok(v) => Ok(records_view(v@)),
        Err(e) => Err(e@),
    }
}

/// The value of a judged write.
pub open spec fn written_view(r: Result<DNSRecordSpec, Error>) -> Result<RecordView, ErrorView> {
    match r {
        Ok(v) => Ok(v@),
        Err(e) => Err(e@),
    }
}

/// The records of a listing, or why the listing failed.
pub fn judge_list(reply: Reply<DNSListResponse>) -> (r: Result<Vec<DNSRecordSpec>, Error>)
    ensures
        listed_view(r) == list_verdict(reply),
{
    match reply {
        Reply::Unreachable(m) => Err(Error::NetworkError(m)),
        Reply::Answered { status, body } => {
            let ok = status_is_success(status);
            match body {
                Err(m) => {
                    if ok {
                        Err(Error::ProtocolError(m))
                    } else {
                        let errors: Vec<String> = Vec::new();
                        assert(strings_view(errors@) =~= Seq::empty());
                        Err(Error::ProviderRejection { status, errors })
                    }
                },
                Ok(b) => {
                    if ok && b.success {
                        Ok(b.result)
                    } else {
                        Err(Error::ProviderRejection { status, errors: b.errors })
                    }
                },
            }
        },
    }
}

/// The record that a create or an update returned, or why it failed.
pub fn judge_write(reply: Reply<DNSResponse>) -> (r: Result<DNSRecordSpec, Error>)
    ensures
        written_view(r) == write_verdict(reply),
{
    match reply {
        Reply::Unreachable(m) => Err(Error::NetworkError(m)),
        Reply::Answered { status, body } => {
            let ok = status_is_success(status);
            match body {
                Err(m) => {
                    if ok {
                        Err(Error::ProtocolError(m))
                    } else {
                        let errors: Vec<String> = Vec::new();
                        assert(strings_view(errors@) =~= Seq::empty());
                        Err(Error::ProviderRejection { status, errors })
                    }
                },
                Ok(b) => {
                    if ok && b.success {
                        Ok(b.result)
                    } else {
                        Err(Error::ProviderRejection { status, errors: b.errors })
                    }
                },
            }
        },
    }
}

} // verus!
