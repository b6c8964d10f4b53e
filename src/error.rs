use vstd::prelude::*;

verus! {

/// The kinds of failure that end a run.
#[derive(Clone, Copy, Debug, PartialEq, Eq)]
pub enum ErrorKind {
    AuthenticationFailure,
    DiscoveryFailure,
    DeviceNotFound,
    UnknownActionKind,
    MissingRequiredField,
    PlannerParseFailure,
    CredentialResolutionFailure,
    ExternalCallFailure,
}

/// A failure with what it concerns: the device query, the action word, or
/// the underlying cause.
#[derive(Clone, Debug, PartialEq, Eq)]
pub struct AgentError {
    pub kind: ErrorKind,
    pub detail: String,
}

impl View for AgentError {
    type V = (ErrorKind, Seq<char>);

    open spec fn view(&self) -> (ErrorKind, Seq<char>) {
        (self.kind, self.detail@)
    }
}

impl AgentError {
    pub fn new(kind: ErrorKind, detail: String) -> (r: AgentError)
        ensures
            r.kind == kind,
            r.detail@ == detail@,
    {
        AgentError { kind, detail }
    }
}

} // verus!
