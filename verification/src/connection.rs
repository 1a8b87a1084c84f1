//! Where to connect: the one value of configuration that is required.
//!
//! The connection string is handed in; nothing here reads the environment
//! or opens a connection. A connection is attempted once, and a failed
//! attempt is reported with the target that was tried.

use vstd::prelude::*;
use vstd::string::StringExecFns;

verus! {

/// The name of the variable that holds the connection string.
pub const DATABASE_URL: &'static str = "DATABASE_URL";

/// No connection to the datastore could be had.
#[derive(Clone, Debug, PartialEq, Eq)]
pub enum ConnectionError {
    /// No connection string is configured.
    NotConfigured,
    /// The datastore could not be reached at `target`.
    Unreachable { target: String },
}

/// What a [`ConnectionError`] holds.
pub enum ConnectionErrorView {
    NotConfigured,
    Unreachable { target: Seq<char> },
}

impl View for ConnectionError {
    type V = ConnectionErrorView;

    open spec fn view(&self) -> ConnectionErrorView {
        match self {
            ConnectionError::NotConfigured => ConnectionErrorView::NotConfigured,
            ConnectionError::Unreachable { target } => ConnectionErrorView::Unreachable {
                target: target@,
            },
        }
    }
}

impl ConnectionErrorView {
    /// The error in words; a failed attempt names its target.
    pub open spec fn describe(self) -> Seq<char> {
        match self {
            ConnectionErrorView::NotConfigured => DATABASE_URL@ + " must be set"@,
            ConnectionErrorView::Unreachable { target } => "Error connecting to "@ + target,
        }
    }
}

impl ConnectionError {
    /// The error in words; a failed attempt names its target.
    pub fn describe(&self) -> (r: String)
        ensures
            r@ == self@.describe(),
    {
        match self {
            ConnectionError::NotConfigured => String::from_str(DATABASE_URL).concat(
                " must be set",
            ),
            ConnectionError::Unreachable { target } => String::from_str(
                "Error connecting to ",
            ).concat(target.as_str()),
        }
    }
}

/// The target to connect to: the configured connection string, which is
/// required.
pub fn connection_target(configured: Option<String>) -> (r: Result<String, ConnectionError>)
    ensures
        match configured {
            Some(target) => r matches Ok(chosen) && chosen@ == target@,
            None => r matches Err(error) && error@ == ConnectionErrorView::NotConfigured,
        },
{
    match configured {
        Some(target) => Ok(target),
        None => Err(ConnectionError::NotConfigured),
    }
}

} // verus!
