//! Derivation engine for forwarding trait implementations onto enums whose
//! variants each wrap a single payload value.
//!
//! Given a structural description of an enum (one unnamed field per variant),
//! the library synthesizes, for each supported trait family (a pollable
//! single-value producer, a pollable multi-value producer, a pollable
//! consumer, and byte-oriented read/write/seek/buffered-read capabilities),
//! one implementation block that dispatches every trait method to the active
//! variant's payload. The engine is a pure value-to-value transformation:
//! parsing the host language's syntax and looking up dependency metadata are
//! left to the caller.

pub mod derive;
pub mod descriptor;
pub mod laws;
pub mod render;
pub mod resolve;
pub mod synth;
pub mod tables;
mod text;

pub use derive::{
    derive_async_buf_read, derive_async_read, derive_async_seek, derive_async_write,
    derive_future, derive_sink, derive_stream, derive_traits, TraitKind,
};
pub use descriptor::{
    extract, EnumDescriptor, GenericParam, RawBody, RawInput, RawVariant, ValidationError,
    Variant,
};
pub use resolve::{crate_name, default_crate_name, CrateResolution, FoundPackage};
