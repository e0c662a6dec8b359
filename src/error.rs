//! Errors of the service, by kind.
use vstd::prelude::*;
use vstd::string::StringExecFns;

verus! {

/// An error with its kind and message.
#[derive(Debug)]
pub enum Error {
    Config(String),
    Serialization(String),
    Validation(String),
    Io(String),
    Connection(String),
    Storage(String),
    Ingestion(String),
    Detection(String),
    Alerting(String),
    Internal(String),
    NotFound(String),
    AlreadyExists(String),
    Timeout(String),
    RateLimit(String),
    WithContext { context: String, source: Box<Error> },
}

impl Error {
    /// Wraps the error with a description of what was being done.
    pub fn context(self, context: &str) -> (r: Error)
        ensures
            r matches Error::WithContext { context: c, source } && c@ == context@ && *source
                == self,
    {
        Error::WithContext { context: String::from_str(context), source: Box::new(self) }
    }

    pub fn config(msg: &str) -> (r: Error)
        ensures
            r matches Error::Config(m) && m@ == msg@,
    {
        Error::Config(String::from_str(msg))
    }

    pub fn serialization(msg: &str) -> (r: Error)
        ensures
            r matches Error::Serialization(m) && m@ == msg@,
    {
        Error::Serialization(String::from_str(msg))
    }

    pub fn validation(msg: &str) -> (r: Error)
        ensures
            r matches Error::Validation(m) && m@ == msg@,
    {
        Error::Validation(String::from_str(msg))
    }

    pub fn connection(msg: &str) -> (r: Error)
        ensures
            r matches Error::Connection(m) && m@ == msg@,
    {
        Error::Connection(String::from_str(msg))
    }

    pub fn storage(msg: &str) -> (r: Error)
        ensures
            r matches Error::Storage(m) && m@ == msg@,
    {
        Error::Storage(String::from_str(msg))
    }

    pub fn ingestion(msg: &str) -> (r: Error)
        ensures
            r matches Error::Ingestion(m) && m@ == msg@,
    {
        Error::Ingestion(String::from_str(msg))
    }

    pub fn detection(msg: &str) -> (r: Error)
        ensures
            r matches Error::Detection(m) && m@ == msg@,
    {
        Error::Detection(String::from_str(msg))
    }

    pub fn alerting(msg: &str) -> (r: Error)
        ensures
            r matches Error::Alerting(m) && m@ == msg@,
    {
        Error::Alerting(String::from_str(msg))
    }

    pub fn internal(msg: &str) -> (r: Error)
        ensures
            r matches Error::Internal(m) && m@ == msg@,
    {
        Error::Internal(String::from_str(msg))
    }

    pub fn not_found(item: &str) -> (r: Error)
        ensures
            r matches Error::NotFound(m) && m@ == item@,
    {
        Error::NotFound(String::from_str(item))
    }

    pub fn already_exists(item: &str) -> (r: Error)
        ensures
            r matches Error::AlreadyExists(m) && m@ == item@,
    {
        Error::AlreadyExists(String::from_str(item))
    }

    pub fn timeout(msg: &str) -> (r: Error)
        ensures
            r matches Error::Timeout(m) && m@ == msg@,
    {
        Error::Timeout(String::from_str(msg))
    }

    pub fn rate_limit(msg: &str) -> (r: Error)
        ensures
            r matches Error::RateLimit(m) && m@ == msg@,
    {
        Error::RateLimit(String::from_str(msg))
    }

    /// Connection, timeout and storage errors are worth retrying.
    pub fn is_retryable(&self) -> (r: bool)
        ensures
            r == (self is Connection || self is Timeout || self is Storage),
    {
        match self {
            Error::Connection(_) | Error::Timeout(_) | Error::Storage(_) => true,
            _ => false,
        }
    }

    /// Connection, timeout and rate-limit errors are expected to pass.
    pub fn is_transient(&self) -> (r: bool)
        ensures
            r == (self is Connection || self is Timeout || self is RateLimit),
    {
        match self {
            Error::Connection(_) | Error::Timeout(_) | Error::RateLimit(_) => true,
            _ => false,
        }
    }
}

} // verus!
