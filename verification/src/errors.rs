use vstd::prelude::*;

verus! {

/// A fatal startup error: the process exits before normal service begins.
#[derive(Clone, Copy, Debug, PartialEq, Eq, Structural)]
pub enum FatalError {
    /// A required configuration value was absent.
    ConfigMissing,
    /// The database stayed unreachable through the whole retry budget.
    ConnectFailed,
    /// Schema setup against the freshly acquired pool failed.
    MigrationFailed,
    /// A listening socket could not be bound.
    BindFailed,
}

} // verus!
