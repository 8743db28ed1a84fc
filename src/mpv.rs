//! Values exchanged with a libmpv handle, modelled as plain data.

pub mod event;
pub mod property;

use vstd::prelude::*;

use crate::mpv::property::{NativeValue, ReadProperty};

verus! {

/// Status code that libmpv returns when a call succeeded.
pub const MPV_ERROR_SUCCESS: i32 = 0;

/// A failure status reported by libmpv (a negative `mpv_error` code).
#[derive(Debug, Clone, Copy, PartialEq, Eq, Structural)]
pub struct Error(pub i32);

impl Error {
    /// The raw libmpv status code.
    pub fn code(&self) -> (r: i32)
        ensures
            r == self.0,
    {
        self.0
    }

    /// Turns a libmpv status code into a result with no value.
    pub fn raise(e: i32) -> (r: Result<(), Error>)
        ensures
            e == MPV_ERROR_SUCCESS ==> r == Ok::<(), Error>(()),
            e != MPV_ERROR_SUCCESS ==> r == Err::<(), Error>(Error(e)),
    {
        Self::raises((), e)
    }

    /// Returns `x` when the status code `e` reports success, and the error
    /// it names otherwise.
    pub fn raises<T>(x: T, e: i32) -> (r: Result<T, Error>)
        ensures
            e == MPV_ERROR_SUCCESS ==> r == Ok::<T, Error>(x),
            e != MPV_ERROR_SUCCESS ==> r == Err::<T, Error>(Error(e)),
    {
        if e != MPV_ERROR_SUCCESS {
            Err(Error(e))
        } else {
            Ok(x)
        }
    }
}

/// The outcome of reading property `P`: libmpv's status `e` and the value
/// it wrote, in `P`'s format.
pub fn read_reply<P: ReadProperty>(e: i32, value: &NativeValue) -> (r: Result<P, Error>)
    requires
        value.spec_format() == P::spec_format(),
    ensures
        e == MPV_ERROR_SUCCESS ==> r == Ok::<P, Error>(P::spec_from_repr(*value)),
        e != MPV_ERROR_SUCCESS ==> r == Err::<P, Error>(Error(e)),
{
    if e != MPV_ERROR_SUCCESS {
        Err(Error(e))
    } else {
        Ok(P::from_repr(value))
    }
}

} // verus!
