//! What can go wrong while a renderer is set up.

use vstd::prelude::*;

verus! {

/// The errors of setting up a renderer, where `E` is the error with which
/// the GPU API refuses a device.
#[derive(Debug, Clone)]
pub enum Error<E> {
    /// A suitable graphics adapter was not found.
    NoAdaptersFound,
    /// Device creation error.
    RequestDeviceError(E),
}

impl<E> Error<E> {
    /// The error in words.
    pub fn message(&self) -> (text: &'static str)
        ensures
            self is NoAdaptersFound ==> text@ == "a suitable graphics adapter was not found"@,
            self is RequestDeviceError ==> text@ == "device creation error"@,
    {
        match self {
            Error::NoAdaptersFound => "a suitable graphics adapter was not found",
            Error::RequestDeviceError(_) => "device creation error",
        }
    }

    /// The adapter, if one was found, and the error that none was found
    /// otherwise.
    pub fn adapter_found<A>(adapter: Option<A>) -> (found: Result<A, Self>)
        ensures
            adapter matches Some(a) ==> found == Ok::<A, Self>(a),
            adapter is None ==> found == Err::<A, Self>(Error::NoAdaptersFound),
    {
        match adapter {
            Some(a) => Ok(a),
            None => Err(Error::NoAdaptersFound),
        }
    }

    /// The device, if one was given, and the error that it was refused
    /// otherwise.
    pub fn device_granted<D>(device: Result<D, E>) -> (granted: Result<D, Self>)
        ensures
            device matches Ok(d) ==> granted == Ok::<D, Self>(d),
            device matches Err(e) ==> granted == Err::<D, Self>(Error::RequestDeviceError(e)),
    {
        match device {
            Ok(d) => Ok(d),
            Err(e) => Err(Error::RequestDeviceError(e)),
        }
    }
}

} // verus!
