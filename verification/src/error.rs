//! The driver's error taxonomy: a propagated bus-transaction failure, or the
//! one validated bring-up fault, an identity mismatch.
use vstd::prelude::*;

verus! {

/// What can go wrong while driving the codec.
#[derive(Debug)]
pub enum Error<I2CE> {
    /// A bus transaction failed; the underlying error is passed up unchanged.
    I2cError(I2CE),
    /// The device answered the identification read, but it is not the
    /// expected device family.
    Identification,
}

impl<I2CE> From<I2CE> for Error<I2CE> {
    fn from(e: I2CE) -> (r: Self) {
        Error::I2cError(e)
    }
}

impl<I2CE> vstd::std_specs::convert::FromSpecImpl<I2CE> for Error<I2CE> {
    open spec fn obeys_from_spec() -> bool {
        true
    }

    open spec fn from_spec(e: I2CE) -> Self {
        Error::I2cError(e)
    }
}

} // verus!
