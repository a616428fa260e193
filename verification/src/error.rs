//! The error type every command reports, one variant per failure family.

use vstd::prelude::*;

verus! {

/// What went wrong, with a human-readable message.
#[derive(Debug, Clone)]
pub enum UecmError {
    /// The caller passed something unusable (bad flags, unknown ids).
    InvalidInput(String),
    /// A remote or local operation ran and failed.
    OperationFailed(String),
    /// The PowerShell bridge failed.
    PowerShell(String),
    /// The environment is misconfigured (paths, runtime).
    Configuration(String),
    /// The inventory database failed.
    Database(String),
    /// Local I/O failed.
    Io(String),
}

impl UecmError {
    /// The message carried by any variant.
    pub open spec fn message_view(&self) -> Seq<char> {
        match self {
            UecmError::InvalidInput(m) => m@,
            UecmError::OperationFailed(m) => m@,
            UecmError::PowerShell(m) => m@,
            UecmError::Configuration(m) => m@,
            UecmError::Database(m) => m@,
            UecmError::Io(m) => m@,
        }
    }

    /// The message carried by any variant.
    pub fn message(&self) -> (r: String)
        ensures
            r@ == self.message_view(),
    {
        match self {
            UecmError::InvalidInput(m) => m.clone(),
            UecmError::OperationFailed(m) => m.clone(),
            UecmError::PowerShell(m) => m.clone(),
            UecmError::Configuration(m) => m.clone(),
            UecmError::Database(m) => m.clone(),
            UecmError::Io(m) => m.clone(),
        }
    }
}

} // verus!
