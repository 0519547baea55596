//! Errors of loading and validating configuration entities.
use std::collections::HashMap;
use vstd::prelude::*;
use vstd::string::StringExecFns;

verus! {

/// The kinds of configuration entity.
#[derive(Clone, Copy, Debug, PartialEq, Eq, Structural)]
pub enum EntityKind {
    Network,
    Trigger,
    Monitor,
}

/// Why a store could not be built. Every variant aborts the whole load.
#[derive(Debug, PartialEq, Eq)]
pub enum RepositoryError {
    /// The backing store at `target` could not be reached.
    ConnectionError { target: String, reason: String },
    /// A query or read against the backing store failed.
    LoadError { message: String, cause: Option<String>, context: Option<HashMap<String, String>> },
    /// The payload stored under `key` is not a valid entity of kind `kind`.
    ParseError { kind: EntityKind, key: String, reason: String },
    /// Monitor `monitor` names a `reference_kind` entity `missing` that was not loaded.
    ValidationError { monitor: String, reference_kind: EntityKind, missing: String },
}

impl EntityKind {
    /// The lower-case name of the kind.
    pub open spec fn name_spec(self) -> Seq<char> {
        match self {
            EntityKind::Network => "network"@,
            EntityKind::Trigger => "trigger"@,
            EntityKind::Monitor => "monitor"@,
        }
    }

    /// The lower-case name of the kind.
    pub fn name(&self) -> (r: &'static str)
        ensures
            r@ == self.name_spec(),
    {
        match self {
            EntityKind::Network => "network",
            EntityKind::Trigger => "trigger",
            EntityKind::Monitor => "monitor",
        }
    }
}

/// The human-readable description of an error.
pub open spec fn message_of(e: RepositoryError) -> Seq<char> {
    match e {
        RepositoryError::ConnectionError { target, .. } => "Failed to connect to database "@
            + target@,
        RepositoryError::LoadError { message, .. } => message@,
        RepositoryError::ParseError { kind, key, .. } => "Failed to parse "@ + kind.name_spec()
            + " '"@ + key@ + "'"@,
        RepositoryError::ValidationError { monitor, reference_kind, missing } => "Monitor '"@
            + monitor@ + "' references non-existent "@ + reference_kind.name_spec() + " '"@
            + missing@ + "'"@,
    }
}

impl RepositoryError {
    /// A human-readable description of the error.
    pub fn message(&self) -> (r: String)
        ensures
            r@ == message_of(*self),
    {
        match self {
            RepositoryError::ConnectionError { target, .. } => {
                let mut m = String::from_str("Failed to connect to database ");
                m.append(target.as_str());
                m
            },
            RepositoryError::LoadError { message, .. } => message.clone(),
            RepositoryError::ParseError { kind, key, .. } => {
                let mut m = String::from_str("Failed to parse ");
                m.append(kind.name());
                m.append(" '");
                m.append(key.as_str());
                m.append("'");
                m
            },
            RepositoryError::ValidationError { monitor, reference_kind, missing } => {
                let mut m = String::from_str("Monitor '");
                m.append(monitor.as_str());
                m.append("' references non-existent ");
                m.append(reference_kind.name());
                m.append(" '");
                m.append(missing.as_str());
                m.append("'");
                m
            },
        }
    }
}

} // verus!
