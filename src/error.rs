//! The catalog's error kinds and how each is reported to a client.
use vstd::prelude::*;
use vstd::string::StringExecFns;

verus! {

/// A failure of the record store.
#[derive(Debug, Clone, PartialEq, Eq)]
pub enum StorageError {
    /// Reading or writing the backing file failed; holds the cause.
    Io(String),
    /// The records could not be encoded or decoded; holds the cause.
    Serde(String),
    /// No identifier unused in the store could be drawn.
    DuplicateId,
}

/// The HTTP status of an invalid input.
pub const STATUS_BAD_REQUEST: u16 = 400;

/// The HTTP status of a missing setting or a store failure.
pub const STATUS_INTERNAL_SERVER_ERROR: u16 = 500;

/// The HTTP status of a failure of the search provider.
pub const STATUS_BAD_GATEWAY: u16 = 502;

/// The text a store failure is reported with.
pub open spec fn storage_message_spec(e: StorageError) -> Seq<char> {
    match e {
        StorageError::Io(m) => "io error: "@ + m@,
        StorageError::Serde(m) => "data serialization error: "@ + m@,
        StorageError::DuplicateId => "no unused record identifier could be drawn"@,
    }
}

impl StorageError {
    /// The text the failure is reported with.
    pub fn message(&self) -> (r: String)
        ensures
            r@ == storage_message_spec(*self),
    {
        match self {
            StorageError::Io(m) => String::from_str("io error: ").concat(m.as_str()),
            StorageError::Serde(m) => String::from_str("data serialization error: ").concat(
                m.as_str(),
            ),
            StorageError::DuplicateId => String::from_str(
                "no unused record identifier could be drawn",
            ),
        }
    }
}

/// An error of the service, by kind.
#[derive(Debug, Clone, PartialEq, Eq)]
pub enum AppError {
    /// The caller's input is invalid.
    BadRequest(String),
    /// A required setting is missing.
    Configuration(String),
    /// The record store failed.
    Storage(StorageError),
    /// The search provider was unreachable, failed, or sent an undecodable payload.
    Downstream(String),
}

/// The HTTP status an error kind is answered with.
pub open spec fn status_code_spec(e: AppError) -> u16 {
    match e {
        AppError::BadRequest(_) => STATUS_BAD_REQUEST,
        AppError::Configuration(_) => STATUS_INTERNAL_SERVER_ERROR,
        AppError::Storage(_) => STATUS_INTERNAL_SERVER_ERROR,
        AppError::Downstream(_) => STATUS_BAD_GATEWAY,
    }
}

/// The text an error is reported with: a store failure's own text, else the held message.
pub open spec fn app_message_spec(e: AppError) -> Seq<char> {
    match e {
        AppError::BadRequest(m) => m@,
        AppError::Configuration(m) => m@,
        AppError::Storage(s) => storage_message_spec(s),
        AppError::Downstream(m) => m@,
    }
}

impl AppError {
    /// The HTTP status this error is answered with.
    pub fn status_code(&self) -> (r: u16)
        ensures
            r == status_code_spec(*self),
    {
        match self {
            AppError::BadRequest(_) => STATUS_BAD_REQUEST,
            AppError::Configuration(_) => STATUS_INTERNAL_SERVER_ERROR,
            AppError::Storage(_) => STATUS_INTERNAL_SERVER_ERROR,
            AppError::Downstream(_) => STATUS_BAD_GATEWAY,
        }
    }

    /// The message of the error body.
    pub fn message(&self) -> (r: String)
        ensures
            r@ == app_message_spec(*self),
    {
        match self {
            AppError::BadRequest(m) => m.clone(),
            AppError::Configuration(m) => m.clone(),
            AppError::Storage(s) => s.message(),
            AppError::Downstream(m) => m.clone(),
        }
    }
}

} // verus!
