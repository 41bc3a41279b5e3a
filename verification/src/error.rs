use rusqlite::Error as SqliteError;
use vstd::prelude::*;

verus! {

// The causes that the error kinds carry come from the outside crates that the
// library works with; their types are declared here so that error values can
// hold them without losing the originating cause.
#[verifier::external_type_specification]
#[verifier::external_body]
pub struct ExTransport(ureq::Transport);

#[verifier::external_type_specification]
#[verifier::external_body]
pub struct ExSqliteError(SqliteError);

#[verifier::external_type_specification]
#[verifier::external_body]
pub struct ExMatroskaError(matroska::MatroskaError);

/// Failure surfaced while talking to an external catalog service.
#[derive(Debug)]
pub enum ApiError {
    /// The service rejected the credential.
    ApiKey,
    /// The response body could not be understood.
    InvalidFormat,
    /// The transport layer failed; carries the cause.
    Transport(ureq::Transport),
    /// An opaque message surfaced by the remote service.
    Unknown(String),
}

/// Failure surfaced by the backing relational store; carries the cause.
#[derive(Debug)]
pub enum DbError {
    Sqlite(SqliteError),
}

/// Failure surfaced while reading container-file metadata.
#[derive(Debug)]
pub enum MediaError {
    /// The container could not be parsed; carries the cause.
    Matroska(matroska::MatroskaError),
    /// The container holds no video track.
    NoVideoTrack,
    /// The container lacks metadata required for extraction.
    IncompleteMetadata,
}

/// The top-level error: one of the three leaf kinds, each keeping its cause.
#[derive(Debug)]
pub enum Error {
    Api(ApiError),
    Db(DbError),
    Media(MediaError),
}

impl From<ureq::Transport> for ApiError {
    fn from(t: ureq::Transport) -> (r: Self) {
        Self::Transport(t)
    }
}

impl vstd::std_specs::convert::FromSpecImpl<ureq::Transport> for ApiError {
    open spec fn obeys_from_spec() -> bool {
        true
    }

    open spec fn from_spec(t: ureq::Transport) -> Self {
        Self::Transport(t)
    }
}

impl From<SqliteError> for DbError {
    fn from(e: SqliteError) -> (r: Self) {
        Self::Sqlite(e)
    }
}

impl vstd::std_specs::convert::FromSpecImpl<SqliteError> for DbError {
    open spec fn obeys_from_spec() -> bool {
        true
    }

    open spec fn from_spec(e: SqliteError) -> Self {
        Self::Sqlite(e)
    }
}

impl From<matroska::MatroskaError> for MediaError {
    fn from(e: matroska::MatroskaError) -> (r: Self) {
        Self::Matroska(e)
    }
}

impl vstd::std_specs::convert::FromSpecImpl<matroska::MatroskaError> for MediaError {
    open spec fn obeys_from_spec() -> bool {
        true
    }

    open spec fn from_spec(e: matroska::MatroskaError) -> Self {
        Self::Matroska(e)
    }
}

impl From<ApiError> for Error {
    fn from(e: ApiError) -> (r: Self) {
        Self::Api(e)
    }
}

impl vstd::std_specs::convert::FromSpecImpl<ApiError> for Error {
    open spec fn obeys_from_spec() -> bool {
        true
    }

    open spec fn from_spec(e: ApiError) -> Self {
        Self::Api(e)
    }
}

impl From<DbError> for Error {
    fn from(e: DbError) -> (r: Self) {
        Self::Db(e)
    }
}

impl vstd::std_specs::convert::FromSpecImpl<DbError> for Error {
    open spec fn obeys_from_spec() -> bool {
        true
    }

    open spec fn from_spec(e: DbError) -> Self {
        Self::Db(e)
    }
}

impl From<MediaError> for Error {
    fn from(e: MediaError) -> (r: Self) {
        Self::Media(e)
    }
}

impl vstd::std_specs::convert::FromSpecImpl<MediaError> for Error {
    open spec fn obeys_from_spec() -> bool {
        true
    }

    open spec fn from_spec(e: MediaError) -> Self {
        Self::Media(e)
    }
}

impl From<SqliteError> for Error {
    fn from(e: SqliteError) -> (r: Self) {
        Self::Db(DbError::Sqlite(e))
    }
}

impl vstd::std_specs::convert::FromSpecImpl<SqliteError> for Error {
    open spec fn obeys_from_spec() -> bool {
        true
    }

    open spec fn from_spec(e: SqliteError) -> Self {
        Self::Db(DbError::Sqlite(e))
    }
}

} // verus!
