use vstd::prelude::*;

pub mod codec;
pub mod command;
pub mod env;
pub mod record;
pub mod roundtrip;
pub mod store;
pub mod token;

verus! {

/// Errors of the settings store, as the persistence layer reports them.
#[derive(Debug, PartialEq, Eq, Structural)]
pub enum SettingsError {
    PathUnavailable,
    CorruptRecord,
    PersistFailure,
}

} // verus!
