//! A closed, dynamically-typed value representation — the generic value
//! tree — together with a structural projection engine that converts
//! statically-typed data into it.
//!
//! [`value`] defines the tree and its mathematical model. [`into`] holds the
//! `IntoGeneric` capability with a verified, total projection for every
//! supported base-case shape. [`derive`] holds the generative half: it
//! consumes a structural descriptor of a user-defined aggregate, yields a
//! reusable projection plan or rejects the shape, and assembles struct,
//! tuple-struct and variant nodes from already-projected field values.

pub mod derive;
pub mod into;
pub mod value;
