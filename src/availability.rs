use vstd::prelude::*;

verus! {

/// Why a platform facility could not be provided.
#[derive(Debug)]
pub enum AvailabilityError {
    /// The facility does not exist on this platform.
    NotSupported,
    /// The facility exists but could not be set up, with a description of the cause if known.
    NotAvailable(Option<String>),
}

} // verus!
