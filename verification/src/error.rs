//! The error taxonomy shared by every backend.

use vstd::prelude::*;
use vstd::string::StringExecFns;

verus! {

/// The platform-driver operation that a backend error came from.
#[derive(Clone, Copy, Debug, PartialEq, Eq, Structural)]
pub enum BackendOp {
    CreateStore,
    CreateEntry,
    GetPassword,
    SetPassword,
    DeletePassword,
}

/// Every failure a secret operation can report.
#[derive(Debug)]
pub enum Error {
    /// A read found no entry. Absence during removal is not an error.
    NotFound,
    /// The build lacks the named feature.
    FeatureUnavailable(String),
    /// The running operating system does not match the backend; carries
    /// the backend's feature name.
    PlatformUnavailable(String),
    /// A store record was malformed; carries the missing block's name.
    ConfigurationError(String),
    /// The external command could not be started.
    SpawnError(String),
    /// The external command ran and exited non-zero; carries the
    /// diagnostic text chosen from its output streams.
    CommandFailure(String),
    /// Command output had to be text but was not valid UTF-8.
    EncodingError,
    /// Any other platform-driver failure, with the operation it came from.
    BackendError(BackendOp, String),
}

pub open spec fn spec_op_prefix(op: BackendOp) -> Seq<char> {
    match op {
        BackendOp::CreateStore => "Cannot create keyring store: "@,
        BackendOp::CreateEntry => "Cannot create keyring entry: "@,
        BackendOp::GetPassword => "Cannot get password from keyring: "@,
        BackendOp::SetPassword => "Cannot set password in keyring: "@,
        BackendOp::DeletePassword => "Cannot delete password from keyring: "@,
    }
}

/// The single-line human rendering of each error.
pub open spec fn spec_message(e: Error) -> Seq<char> {
    match e {
        Error::NotFound => "no matching entry found"@,
        Error::FeatureUnavailable(f) => "missing feature: enable `"@ + f@ + "`"@,
        Error::PlatformUnavailable(f) => "`"@ + f@ + "` is not available on this platform"@,
        Error::ConfigurationError(b) => "missing `"@ + b@ + "` configuration"@,
        Error::SpawnError(m) => "cannot spawn command: "@ + m@,
        Error::CommandFailure(m) => m@,
        Error::EncodingError => "command output is not valid UTF-8"@,
        Error::BackendError(op, m) => spec_op_prefix(op) + m@,
    }
}

impl Error {
    /// Renders the error as one human-readable line.
    pub fn message(&self) -> (m: String)
        ensures
            m@ == spec_message(*self),
    {
        match self {
            Error::NotFound => "no matching entry found".to_owned(),
            Error::FeatureUnavailable(f) => {
                let mut m = "missing feature: enable `".to_owned();
                m.append(f.as_str());
                m.append("`");
                assert(m@ =~= spec_message(*self));
                m
            },
            Error::PlatformUnavailable(f) => {
                let mut m = "`".to_owned();
                m.append(f.as_str());
                m.append("` is not available on this platform");
                assert(m@ =~= spec_message(*self));
                m
            },
            Error::ConfigurationError(b) => {
                let mut m = "missing `".to_owned();
                m.append(b.as_str());
                m.append("` configuration");
                assert(m@ =~= spec_message(*self));
                m
            },
            Error::SpawnError(d) => {
                let mut m = "cannot spawn command: ".to_owned();
                m.append(d.as_str());
                m
            },
            Error::CommandFailure(d) => d.clone(),
            Error::EncodingError => "command output is not valid UTF-8".to_owned(),
            Error::BackendError(op, d) => {
                let mut m = match op {
                    BackendOp::CreateStore => "Cannot create keyring store: ".to_owned(),
                    BackendOp::CreateEntry => "Cannot create keyring entry: ".to_owned(),
                    BackendOp::GetPassword => "Cannot get password from keyring: ".to_owned(),
                    BackendOp::SetPassword => "Cannot set password in keyring: ".to_owned(),
                    BackendOp::DeletePassword => "Cannot delete password from keyring: ".to_owned(),
                };
                m.append(d.as_str());
                m
            },
        }
    }
}

} // verus!
