use vstd::prelude::*;

use crate::assets::AssetRole;

verus! {

/// The failures that the configuration, state and asset operations report.
#[derive(Debug, PartialEq, Eq)]
pub enum AppError {
    /// A file could not be read, written or created.
    Io(String),
    /// Stored JSON was malformed, or a value could not be encoded.
    Serialization(String),
    /// A request failed, answered with a failure status, or its body could
    /// not be read.
    Network(String),
    /// No asset of the release fits the role; `available` lists the names of
    /// all the release's assets.
    Resolution { role: AssetRole, available: String },
    /// The host could not provide a required base directory.
    PathResolution(String),
}

impl AppError {
    /// The description handed to the user interface.
    pub open spec fn message_spec(self) -> Seq<char> {
        match self {
            AppError::Io(m) => m@,
            AppError::Serialization(m) => m@,
            AppError::Network(m) => m@,
            AppError::Resolution { role, available } => "missing Vencord "@ + role.word()@
                + " asset; available: "@ + available@,
            AppError::PathResolution(m) => m@,
        }
    }

    /// Renders the error as the description string given to the user
    /// interface.
    pub fn message(&self) -> (r: String)
        ensures
            r@ == self.message_spec(),
    {
        match self {
            AppError::Io(m) => m.clone(),
            AppError::Serialization(m) => m.clone(),
            AppError::Network(m) => m.clone(),
            AppError::Resolution { role, available } => {
                let mut out = String::from_str("missing Vencord ");
                out.append(role.word());
                out.append(" asset; available: ");
                out.append(available.as_str());
                out
            },
            AppError::PathResolution(m) => m.clone(),
        }
    }
}

} // verus!
