//! Decoders for the attribute and flag words of CLR (ECMA-335) metadata
//! tables.
//!
//! A metadata table row stores each attribute as a fixed-width little-endian
//! integer whose bits are packed into several sub-fields. A sub-field is
//! either categorical (a bit window that selects exactly one value from a
//! closed set, with a designated default for unmatched patterns) or a flag
//! set (each bit independently marks one flag as present). The decoders here
//! turn such a word into a structured record, following the ECMA-335 bit
//! layout exactly.
//!
//! Attribute categories whose bit layouts are not covered yet (field, method,
//! parameter, event, property, file, manifest-resource, generic-parameter
//! attributes, method-implementation and P/Invoke maps) are deliberately
//! absent from this crate's surface; they are future extension points, not
//! modeled types.

pub mod assembly;
pub mod error;
pub mod extract;
pub mod typeattr;
