//! Layout descriptors for attestation records, and the source text of
//! their `ABIProvider` implementations.
//!
//! A record goes through three steps. The classifier ([`type_info`]) gives
//! the type of each field a tag and a byte width. The builder
//! ([`descriptor`]) collects the fields, in their order, into a descriptor
//! with the sum of the fixed widths. The emitter ([`emitter`]) writes the
//! implementation for a descriptor. [`provider`] is the three steps in one
//! call, after the test that the definition is a record with named fields
//! at all; what is not gets a [`diagnostic`]. [`plugin`] decides for a
//! compiler plugin which items of a module get an implementation.
//!
//! Nothing here reads tokens or syntax trees, keeps state or does I/O:
//! every function goes from plain values to plain values, and its contract
//! says which.

pub mod decimal;
pub mod descriptor;
pub mod diagnostic;
pub mod emitter;
pub mod plugin;
pub mod provider;
pub mod text;
pub mod type_info;
