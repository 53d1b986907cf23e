//! What can go wrong.
use vstd::prelude::*;
use vstd::string::*;

verus! {

/// Error type for the cache.
#[derive(Debug)]
pub enum Error {
    /// An underlying CBOR error.
    Cbor(serde_cbor::Error),
    /// An underlying HashKey error.
    HashKey(serde_hashkey::Error),
    /// An underlying JSON error.
    Json(serde_json::Error),
    /// An underlying Sled error.
    Sled(sled::Error),
    /// The underlying future failed (with an unspecified error).
    Failed,
}

/// Where an [Error] comes from.
#[derive(Debug, Clone, Copy, PartialEq, Eq, Structural)]
pub enum Origin {
    /// The encoding of keys and entries.
    Cbor,
    /// The serialization of keys.
    HashKey,
    /// The conversion to JSON.
    Json,
    /// The database.
    Sled,
    /// The future of another call.
    Future,
}

impl Origin {
    /// The text of an error of this origin, where `detail` is the text of the underlying error.
    pub open spec fn told(self, detail: Seq<char>) -> Seq<char> {
        match self {
            Origin::Cbor => "CBOR error: "@ + detail,
            Origin::HashKey => "HashKey error: "@ + detail,
            Origin::Json => "JSON error: "@ + detail,
            Origin::Sled => "Database error: "@ + detail,
            Origin::Future => "Operation failed"@,
        }
    }

    /// The text of an error of this origin, where `detail` is the text of the underlying error.
    pub fn describe(self, detail: &str) -> (text: String)
        ensures
            text@ == self.told(detail@),
    {
        match self {
            Origin::Cbor => String::from_str("CBOR error: ").concat(detail),
            Origin::HashKey => String::from_str("HashKey error: ").concat(detail),
            Origin::Json => String::from_str("JSON error: ").concat(detail),
            Origin::Sled => String::from_str("Database error: ").concat(detail),
            Origin::Future => String::from_str("Operation failed"),
        }
    }
}

impl Error {
    /// Where the error comes from.
    pub open spec fn source(self) -> Origin {
        match self {
            Error::Cbor(_) => Origin::Cbor,
            Error::HashKey(_) => Origin::HashKey,
            Error::Json(_) => Origin::Json,
            Error::Sled(_) => Origin::Sled,
            Error::Failed => Origin::Future,
        }
    }

    /// `detail` is what the underlying error displays as.
    pub open spec fn displays(self, detail: String) -> bool {
        match self {
            Error::Cbor(e) => to_string_from_display_ensures(&e, detail),
            Error::HashKey(e) => to_string_from_display_ensures(&e, detail),
            Error::Json(e) => to_string_from_display_ensures(&e, detail),
            Error::Sled(e) => to_string_from_display_ensures(&e, detail),
            Error::Failed => false,
        }
    }

    /// Where the error comes from.
    pub fn origin(&self) -> (origin: Origin)
        ensures
            origin == self.source(),
    {
        match self {
            Error::Cbor(_) => Origin::Cbor,
            Error::HashKey(_) => Origin::HashKey,
            Error::Json(_) => Origin::Json,
            Error::Sled(_) => Origin::Sled,
            Error::Failed => Origin::Future,
        }
    }

    /// The text of the error, where `detail` is the text of the underlying error.
    pub fn describe(&self, detail: &str) -> (text: String)
        ensures
            text@ == self.source().told(detail@),
    {
        self.origin().describe(detail)
    }

    /// The text of the error.
    pub fn message(&self) -> (text: String)
        ensures
            self is Failed ==> text@ == "Operation failed"@,
            self !is Failed ==> exists|detail: String| #[trigger]
                self.displays(detail) && text@ == self.source().told(detail@),
    {
        match self {
            Error::Cbor(e) => {
                let detail: String = e.to_string();
                assert(self.displays(detail));
                self.describe(detail.as_str())
            },
            Error::HashKey(e) => {
                let detail: String = e.to_string();
                assert(self.displays(detail));
                self.describe(detail.as_str())
            },
            Error::Json(e) => {
                let detail: String = e.to_string();
                assert(self.displays(detail));
                self.describe(detail.as_str())
            },
            Error::Sled(e) => {
                let detail: String = e.to_string();
                assert(self.displays(detail));
                self.describe(detail.as_str())
            },
            Error::Failed => self.describe(""),
        }
    }
}

impl From<serde_json::Error> for Error {
    fn from(error: serde_json::Error) -> (converted: Error) {
        Error::Json(error)
    }
}

impl vstd::std_specs::convert::FromSpecImpl<serde_json::Error> for Error {
    open spec fn obeys_from_spec() -> bool {
        true
    }

    open spec fn from_spec(error: serde_json::Error) -> Error {
        Error::Json(error)
    }
}

impl From<serde_cbor::Error> for Error {
    fn from(error: serde_cbor::Error) -> (converted: Error) {
        Error::Cbor(error)
    }
}

impl vstd::std_specs::convert::FromSpecImpl<serde_cbor::Error> for Error {
    open spec fn obeys_from_spec() -> bool {
        true
    }

    open spec fn from_spec(error: serde_cbor::Error) -> Error {
        Error::Cbor(error)
    }
}

impl From<serde_hashkey::Error> for Error {
    fn from(error: serde_hashkey::Error) -> (converted: Error) {
        Error::HashKey(error)
    }
}

impl vstd::std_specs::convert::FromSpecImpl<serde_hashkey::Error> for Error {
    open spec fn obeys_from_spec() -> bool {
        true
    }

    open spec fn from_spec(error: serde_hashkey::Error) -> Error {
        Error::HashKey(error)
    }
}

impl From<sled::Error> for Error {
    fn from(error: sled::Error) -> (converted: Error) {
        Error::Sled(error)
    }
}

impl vstd::std_specs::convert::FromSpecImpl<sled::Error> for Error {
    open spec fn obeys_from_spec() -> bool {
        true
    }

    open spec fn from_spec(error: sled::Error) -> Error {
        Error::Sled(error)
    }
}

}
