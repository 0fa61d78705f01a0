//! The failures that registry and diagnostics operations report.

use vstd::prelude::*;

verus! {

/// The class of a failure.
#[derive(Debug, Clone, Copy, PartialEq, Eq, Structural)]
pub enum ErrorKind {
    /// A pool was built but no connection could be leased from it.
    Connectivity,
    /// No pool could be built for the server.
    PoolCreation,
    /// No server of the given id is known where one is needed.
    ConnectionNotFound,
    /// The saved record of the server holds no secret.
    CredentialMissing,
    /// The statement does not start with a keyword that can be explained.
    InvalidStatementType,
    /// The planner's output does not have the expected shape.
    Parse,
    /// The server refused or failed the statement.
    Execution,
    /// The server list or the secret store could not be read or written.
    Storage,
}

/// A failure: its class and the text shown to the caller.
#[derive(Debug)]
pub struct DashboardError {
    pub kind: ErrorKind,
    pub message: String,
}

impl DashboardError {
    /// A failure of class `kind` with the fixed text `message`.
    pub fn new(kind: ErrorKind, message: &str) -> (r: DashboardError)
        ensures
            r.kind == kind,
            r.message@ == message@,
    {
        DashboardError { kind, message: String::from_str(message) }
    }

    /// A failure of class `kind` whose text is `prefix` followed by `detail`.
    pub fn with_detail(kind: ErrorKind, prefix: &str, detail: &str) -> (r: DashboardError)
        ensures
            r.kind == kind,
            r.message@ == prefix@ + detail@,
    {
        let mut message = String::from_str(prefix);
        message.append(detail);
        DashboardError { kind, message }
    }

    /// The text of the failure.
    pub fn to_string(&self) -> (r: String)
        ensures
            r@ == self.message@,
    {
        self.message.clone()
    }
}

impl Clone for DashboardError {
    fn clone(&self) -> (r: Self)
        ensures
            r == *self,
    {
        DashboardError { kind: self.kind, message: self.message.clone() }
    }
}

} // verus!
