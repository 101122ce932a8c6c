//! Driver logic for the SGTL5000 audio codec: a typed register map with
//! verified bit-field accessors, a register bus client over an abstract
//! two-wire bus whose ghost log records every transaction, the ordered
//! bring-up sequence, runtime volume control, and the double-buffered
//! streaming scheduler.
pub mod bus;
pub mod control;
pub mod error;
pub mod fields;
pub mod registers;
pub mod stream;
pub mod volume;
