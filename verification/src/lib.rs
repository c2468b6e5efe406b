//! Companion-type generation for the boxed-error idiom.
//!
//! Given the abstract form of a type declaration, the library derives a
//! wrapper type name, infers accessor names, validates the declaration's
//! shape, and emits a fixed, self-consistent set of companion operations
//! (boxing, display delegation, error-source delegation, accessors, and a
//! generic conversion bridge). A generic runtime wrapper, [`boxed::Boxed`],
//! carries the proved boxing laws that every generated wrapper follows.

pub mod boxed;
pub mod decl;
pub mod diag;
pub mod drive;
pub mod emit;
pub mod names;
pub mod render;
pub mod validate;
