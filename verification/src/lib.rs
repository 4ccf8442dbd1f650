//! A host harness for linking compiled guest modules into a shared execution
//! context, resolving strongly-typed entry points, and timing repeated calls
//! of guest entry points against native implementations of the same
//! algorithms.
//!
//! The linking and resolution rules (import satisfaction, ordered shadowing of
//! exports, exact signature matching) are stated as contracts over a plain
//! data model of modules and namespaces and proved; the engine that actually
//! compiles and runs guest code is called through a small set of trusted
//! declarations.

pub mod bench;
pub mod namespace;
pub mod native;
pub mod session;
pub mod sig;
