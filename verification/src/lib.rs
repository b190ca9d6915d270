//! A single-pass module transform that recognizes two syntactic shapes of
//! component-defining functions written against a virtual-node creation API
//! and rewrites each into a class-shaped declaration for a different
//! component runtime.  The transform also retargets the legacy import source
//! and idempotently injects the runtime's base-class imports.
//!
//! The module tree is modeled as a closed grammar of plain values: only the
//! shapes that participate in detection and rewriting are distinguished;
//! everything else is an opaque leaf that the transform carries through
//! untouched.  A host that keeps its tree in some other representation
//! converts at the boundary.

pub mod ast;
pub mod classifier;
pub mod detector;
pub mod imports;
pub mod laws;
pub mod rewriter;
pub mod transform;
pub mod view;
