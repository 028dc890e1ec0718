//! Decoder for the variable-width compact string object layout of a managed
//! runtime: reading the packed flag word of a string object's header and
//! computing, from the decoded flags, the address and element width of the
//! character payload.
//!
//! The host runtime owns the object's bytes for its whole lifetime; this
//! crate never allocates or frees, it only interprets header fields handed
//! to it as plain values.  Raw pointer slots of the real layout are carried
//! here as plain addresses (`usize`, with 0 standing for null).

#![allow(non_snake_case)]
#![allow(non_camel_case_types)]

pub mod flags;
pub mod layout;
pub mod locate;
pub mod ready;
