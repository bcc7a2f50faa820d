//! Errors of the cache store.

use vstd::prelude::*;
use vstd::string::StringExecFns;

verus! {

/// Why a call to the cache store failed. Each variant carries the text that
/// the store's client reported.
#[derive(Clone, Debug, PartialEq, Eq)]
pub enum RedisConnectError {
    /// No connection could be had from the pool.
    ConnectionError(String),
    /// A connection was had, and the command sent over it failed.
    GettingValueError(String),
}

/// Mathematical value of a [`RedisConnectError`].
pub enum RedisConnectErrorView {
    ConnectionError(Seq<char>),
    GettingValueError(Seq<char>),
}

impl View for RedisConnectError {
    type V = RedisConnectErrorView;

    open spec fn view(&self) -> RedisConnectErrorView {
        match self {
            RedisConnectError::ConnectionError(detail) => RedisConnectErrorView::ConnectionError(
                detail@,
            ),
            RedisConnectError::GettingValueError(detail) => RedisConnectErrorView::GettingValueError(
                detail@,
            ),
        }
    }
}

impl RedisConnectErrorView {
    /// The text shown for the error.
    pub open spec fn message(self) -> Seq<char> {
        match self {
            RedisConnectErrorView::ConnectionError(detail) => "Failed to connect to Redis: "@
                + detail,
            RedisConnectErrorView::GettingValueError(detail) => "Failed to get value from Redis: "@
                + detail,
        }
    }
}

impl RedisConnectError {
    /// The text shown for the error: what failed, then the client's report.
    pub fn message(&self) -> (text: String)
        ensures
            text@ == self@.message(),
    {
        match self {
            RedisConnectError::ConnectionError(detail) => String::from_str(
                "Failed to connect to Redis: ",
            ).concat(detail.as_str()),
            RedisConnectError::GettingValueError(detail) => String::from_str(
                "Failed to get value from Redis: ",
            ).concat(detail.as_str()),
        }
    }

    /// A copy of the error.
    pub(crate) fn duplicate(&self) -> (copy: RedisConnectError)
        ensures
            copy@ == self@,
    {
        match self {
            RedisConnectError::ConnectionError(detail) => RedisConnectError::ConnectionError(
                detail.clone(),
            ),
            RedisConnectError::GettingValueError(detail) => RedisConnectError::GettingValueError(
                detail.clone(),
            ),
        }
    }
}

} // verus!
