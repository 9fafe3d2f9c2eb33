//! The records that are kept in sync, the provider's reply envelopes and the
//! library's error type.
use vstd::prelude::*;

verus! {

/// A DNS record: the provider's identifier (empty until the record exists
/// remotely), its type, its fully qualified name, its target and the flag
/// that is handed to the provider unchanged.
#[derive(Clone, Debug)]
pub struct DNSRecordSpec {
    pub id: String,
    pub record_type: String,
    pub name: String,
    pub content: String,
    pub proxied: bool,
}

/// The mathematical value of a record.
pub struct RecordView {
    pub id: Seq<char>,
    pub record_type: Seq<char>,
    pub name: Seq<char>,
    pub content: Seq<char>,
    pub proxied: bool,
}

impl View for DNSRecordSpec {
    type V = RecordView;

    open spec fn view(&self) -> RecordView {
        RecordView {
            id: self.id@,
            record_type: self.record_type@,
            name: self.name@,
            content: self.content@,
            proxied: self.proxied,
        }
    }
}

/// The provider's reply to a create or an update.
#[derive(Debug)]
pub struct DNSResponse {
    pub result: DNSRecordSpec,
    pub success: bool,
    pub errors: Vec<String>,
    pub messages: Vec<String>,
}

/// The provider's reply to a listing of a zone.
#[derive(Debug)]
pub struct DNSListResponse {
    pub result: Vec<DNSRecordSpec>,
    pub success: bool,
    pub errors: Vec<String>,
    pub messages: Vec<String>,
}

/// Why a call to a remote endpoint, or the configuration, failed.
#[derive(Debug)]
pub enum Error {
    /// The endpoint could not be reached; the transport's message.
    NetworkError(String),
    /// The endpoint answered, but its body did not have the expected shape.
    ProtocolError(String),
    /// The provider refused: the HTTP status and the provider's own errors.
    ProviderRejection { status: u16, errors: Vec<String> },
    /// A required input is missing or invalid.
    ConfigurationError(String),
}

/// The mathematical value of an [`Error`].
pub enum ErrorView {
    NetworkError(Seq<char>),
    ProtocolError(Seq<char>),
    ProviderRejection { status: u16, errors: Seq<Seq<char>> },
    ConfigurationError(Seq<char>),
}

/// The characters of each string of a sequence.
pub open spec fn strings_view(s: Seq<String>) -> Seq<Seq<char>> {
    s.map_values(|x: String| x@)
}

/// The value of each record of a sequence.
pub open spec fn records_view(s: Seq<DNSRecordSpec>) -> Seq<RecordView> {
    s.map_values(|r: DNSRecordSpec| r@)
}

impl View for Error {
    type V = ErrorView;

    open spec fn view(&self) -> ErrorView {
        match self {
            Error::NetworkError(m) => ErrorView::NetworkError(m@),
            Error::ProtocolError(m) => ErrorView::ProtocolError(m@),
            Error::ProviderRejection { status, errors } => ErrorView::ProviderRejection {
                status: *status,
                errors: strings_view(errors@),
            },
            Error::ConfigurationError(m) => ErrorView::ConfigurationError(m@),
        }
    }
}

/// Two records stand for the same logical record when name and type agree.
pub open spec fn same_key(a: RecordView, b: RecordView) -> bool {
    a.name == b.name && a.record_type == b.record_type
}

/// The fields that the desired state is authoritative for agree.
pub open spec fn same_target(a: RecordView, b: RecordView) -> bool {
    a.content == b.content && a.proxied == b.proxied
}

impl DNSRecordSpec {
    /// Whether `self` and `other` share the key `(name, type)`.
    pub fn same_key_as(&self, other: &DNSRecordSpec) -> (r: bool)
        ensures
            r == same_key(self@, other@),
    {
        self.name == other.name && self.record_type == other.record_type
    }

    /// Whether `self` and `other` agree on content and the proxied flag.
    pub fn same_target_as(&self, other: &DNSRecordSpec) -> (r: bool)
        ensures
            r == same_target(self@, other@),
    {
        self.content == other.content && self.proxied == other.proxied
    }
}

} // verus!
