//! Safe handles over type objects of a foreign, reference-counted object
//! runtime, written so that every decision the handle layer takes is stated
//! in a contract and proved.
//!
//! The layer never touches foreign memory itself. Each operation that needs
//! the runtime yields a [`protocol::ForeignCall`] that names the primitive to
//! run and its operands; whoever holds the runtime performs it and hands the
//! plain reply back to the function that interprets it.

pub mod err;
pub mod laws;
pub mod objects;
pub mod pointers;
pub mod protocol;
pub mod python;
pub mod text;
pub mod typeobject;
