//! The errors that the service reports, and what each one says.
use vstd::prelude::*;
use vstd::string::*;

verus! {

/// Text of a missing record.
pub const NOT_FOUND_TEXT: &'static str = "Không tìm thấy dữ liệu";
/// Lead of a database failure.
pub const DATABASE_TEXT: &'static str = "Lỗi cơ sở dữ liệu: ";
/// Lead of a failure to take a connection from the Redis pool.
pub const REDIS_POOL_TEXT: &'static str = "Lỗi kết nối Redis Pool: ";
/// Lead of a failed Redis command.
pub const REDIS_TEXT: &'static str = "Lỗi thực thi Redis: ";
/// Lead of a failed (de)serialisation.
pub const SERIALIZATION_TEXT: &'static str = "Lỗi định dạng dữ liệu: ";
/// Lead of an internal failure.
pub const INTERNAL_TEXT: &'static str = "Lỗi nội bộ: ";

/// An error of the service. The variants that stem from an outside
/// library hold that error's displayed text.
#[derive(Debug, Clone, PartialEq, Eq)]
pub enum CustomError {
    NotFound(Option<String>),
    DatabaseError(String),
    RedisPoolError(String),
    RedisError(String),
    SerializationError(String),
    Internal(String),
}

/// How a database call failed: no row where one was required, or any
/// other failure (with its displayed text).
#[derive(Debug, Clone, PartialEq, Eq)]
pub enum DatabaseFailure {
    RowNotFound,
    Other(String),
}

/// The displayed text of an error.
pub open spec fn error_text(e: CustomError) -> Seq<char> {
    match e {
        CustomError::NotFound(_) => NOT_FOUND_TEXT@,
        CustomError::DatabaseError(m) => DATABASE_TEXT@ + m@,
        CustomError::RedisPoolError(m) => REDIS_POOL_TEXT@ + m@,
        CustomError::RedisError(m) => REDIS_TEXT@ + m@,
        CustomError::SerializationError(m) => SERIALIZATION_TEXT@ + m@,
        CustomError::Internal(m) => INTERNAL_TEXT@ + m@,
    }
}

/// The error that a database failure becomes: a missing row is a
/// `NotFound` without message, anything else a `DatabaseError`.
pub open spec fn database_error(f: DatabaseFailure) -> CustomError {
    match f {
        DatabaseFailure::RowNotFound => CustomError::NotFound(None),
        DatabaseFailure::Other(m) => CustomError::DatabaseError(m),
    }
}

impl CustomError {
    /// Converts a database failure into the service's error.
    pub fn from_database(f: DatabaseFailure) -> (e: CustomError)
        ensures
            e == database_error(f),
    {
        match f {
            DatabaseFailure::RowNotFound => CustomError::NotFound(None),
            DatabaseFailure::Other(m) => CustomError::DatabaseError(m),
        }
    }

    /// The displayed text of the error.
    pub fn to_text(&self) -> (t: String)
        ensures
            t@ == error_text(*self),
    {
        match self {
            CustomError::NotFound(_) => String::from_str(NOT_FOUND_TEXT),
            CustomError::DatabaseError(m) => String::from_str(DATABASE_TEXT).concat(m.as_str()),
            CustomError::RedisPoolError(m) => String::from_str(REDIS_POOL_TEXT).concat(m.as_str()),
            CustomError::RedisError(m) => String::from_str(REDIS_TEXT).concat(m.as_str()),
            CustomError::SerializationError(m) => String::from_str(SERIALIZATION_TEXT).concat(
                m.as_str(),
            ),
            CustomError::Internal(m) => String::from_str(INTERNAL_TEXT).concat(m.as_str()),
        }
    }

    /// Whether the error is a failure of the system underneath (anything
    /// but `NotFound` and `Internal`), which is answered with a generic
    /// text and logged.
    pub fn is_system_failure(&self) -> (b: bool)
        ensures
            b == !(*self is NotFound || *self is Internal),
    {
        match self {
            CustomError::NotFound(_) => false,
            CustomError::Internal(_) => false,
            _ => true,
        }
    }
}

} // verus!
