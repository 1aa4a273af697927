use super::super::generic::IoError;
use vstd::prelude::*;
use vstd::string::StringExecFns;

verus! {

/// Why the browser's store could not be reached.
#[derive(Debug, PartialEq, Eq, Structural)]
pub enum WebStorageAvailabilityError {
    NoWindow,
    NoLocalStorage,
}

/// Marks a handle that can only read.
pub struct ReadOnly;

/// Marks a handle that can read and write.
pub struct ReadWrite;

/// The store, from the outcome of looking up the window (`None` where there is none) and then
/// its local storage (`Err` where the lookup failed, `Ok(None)` where there is none).
pub fn select_local_storage<S>(lookup: Option<Result<Option<S>, ()>>) -> (r: Result<
    S,
    WebStorageAvailabilityError,
>)
    ensures
        lookup is None ==> r == Err::<S, _>(WebStorageAvailabilityError::NoWindow),
        lookup matches Some(Ok(Some(s))) ==> r == Ok::<S, WebStorageAvailabilityError>(s),
        (lookup matches Some(Err(_)) || lookup matches Some(Ok(None))) ==> r == Err::<S, _>(
            WebStorageAvailabilityError::NoLocalStorage,
        ),
{
    match lookup {
        None => Err(WebStorageAvailabilityError::NoWindow),
        Some(Ok(Some(s))) => Ok(s),
        Some(_) => Err(WebStorageAvailabilityError::NoLocalStorage),
    }
}

/// Whether a file exists, from the outcome of looking its key up (`Err` where the lookup
/// failed).
pub fn exists_result(lookup: Result<Option<String>, ()>) -> (r: Result<bool, IoError>)
    ensures
        lookup is Ok <==> r is Ok,
        lookup is Ok ==> r->Ok_0 == lookup->Ok_0 is Some,
        lookup is Err ==> r matches Err(IoError::Other(_)),
{
    match lookup {
        Ok(value) => Ok(value.is_some()),
        Err(_) => Err(IoError::Other(String::from_str("cannot get value"))),
    }
}

/// The outcome of removing a file, from the outcome of deleting its key.
pub fn remove_result(outcome: Result<(), ()>) -> (r: Result<(), IoError>)
    ensures
        outcome is Ok <==> r is Ok,
        outcome is Err ==> r matches Err(IoError::Other(_)),
{
    match outcome {
        Ok(()) => Ok(()),
        Err(_) => Err(IoError::Other(String::from_str("cannot remove value"))),
    }
}

/// The outcome of storing a flushed value, from the outcome of setting its key.
pub fn store_result(outcome: Result<(), ()>) -> (r: Result<(), IoError>)
    ensures
        outcome is Ok <==> r is Ok,
        outcome is Err ==> r matches Err(IoError::Other(_)),
{
    match outcome {
        Ok(()) => Ok(()),
        Err(_) => Err(IoError::Other(String::from_str("cannot store value"))),
    }
}

} // verus!
