use vstd::prelude::*;

verus! {

/// Failure taxonomy of the reconciliation pipeline.
///
/// Every reconciliation failure aborts the whole command before any
/// workload action executes; no partial success is reported.
#[derive(Debug)]
pub enum Error {
    /// A desired-state cross-reference does not resolve. Raised before any
    /// external call is made; names the holder of the reference and the
    /// missing target.
    ConfigReference { kind: String, holder: String, missing: String },
    /// A delegated cloud or local-store command exited non-zero; carries
    /// the captured diagnostic text.
    ExternalTool { diag: String },
    /// The identity check failed even after the single login attempt.
    AuthVerification { profile: String },
    /// The local store was unreadable for a reason other than the file
    /// being absent (an absent file is a valid empty state).
    StateRead { diag: String },
    /// No unique release or application could be selected from the
    /// desired state.
    Selection { reason: String },
}

impl Error {
    /// Renders the error as a single user-facing line.
    pub fn message(&self) -> (r: String)
        ensures
            self matches Error::ConfigReference { kind, holder, missing } ==> r@
                == holder@ + " uses "@ + kind@ + " "@ + missing@ + ", which isn't defined"@,
            self matches Error::ExternalTool { diag } ==> r@
                == "Command exited unsuccessfully: "@ + diag@,
            self matches Error::AuthVerification { profile } ==> r@
                == "Could not verify authorization for profile "@ + profile@,
            self matches Error::StateRead { diag } ==> r@
                == "Could not read local access configuration: "@ + diag@,
            self matches Error::Selection { reason } ==> r@ == reason@,
    {
        match self {
            Error::ConfigReference { kind, holder, missing } => {
                let mut r = holder.clone();
                r.append(" uses ");
                r.append(kind.as_str());
                r.append(" ");
                r.append(missing.as_str());
                r.append(", which isn't defined");
                r
            },
            Error::ExternalTool { diag } => {
                let mut r = String::from_str("Command exited unsuccessfully: ");
                r.append(diag.as_str());
                r
            },
            Error::AuthVerification { profile } => {
                let mut r = String::from_str("Could not verify authorization for profile ");
                r.append(profile.as_str());
                r
            },
            Error::StateRead { diag } => {
                let mut r = String::from_str("Could not read local access configuration: ");
                r.append(diag.as_str());
                r
            },
            Error::Selection { reason } => reason.clone(),
        }
    }
}

} // verus!
