use vstd::prelude::*;

verus! {

/// Failures of the key registry.
#[derive(Debug, Clone, Copy, PartialEq, Eq, Structural)]
pub enum KeyError {
    /// The application already holds a key.
    DuplicateKeyIssuance,
    /// The application holds no key.
    KeyNotFound,
}

/// The closed set of failures that a session reports. `C` is what the
/// authentication collaborator reported, carried through unchanged.
#[derive(Debug, Clone, PartialEq, Eq)]
pub enum LauncherError<C> {
    AccountCreationFailed(C),
    LoginFailed(C),
    EngineUnavailable,
    DuplicateKeyIssuance,
    KeyNotFound,
    UnexpectedCollaboratorFailure(C),
}

impl KeyError {
    /// The session-level failure that stands for this registry failure.
    pub fn into_launcher_error<C>(self) -> (r: LauncherError<C>)
        ensures
            self == KeyError::DuplicateKeyIssuance ==> r == LauncherError::<C>::DuplicateKeyIssuance,
            self == KeyError::KeyNotFound ==> r == LauncherError::<C>::KeyNotFound,
    {
        match self {
            KeyError::DuplicateKeyIssuance => LauncherError::DuplicateKeyIssuance,
            KeyError::KeyNotFound => LauncherError::KeyNotFound,
        }
    }
}

} // verus!
