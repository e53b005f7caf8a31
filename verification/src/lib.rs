//! A suspendable procedure, consumed two ways at once.
//!
//! An author writes one sequential-looking procedure containing two kinds of
//! suspension: a *dependency-wait* (block until a nested operation completes)
//! and an *emit* (hand an interim item to whoever is consuming the sequence,
//! then resume in place). The procedure is lowered into a suspendable state
//! machine, and a runtime wrapper exposes that machine simultaneously under
//! the *completion protocol* (drive until the final value is ready) and the
//! *sequence protocol* (drive until the next interim item, or end of
//! sequence, is ready).
//!
//! - [`rewrite`] holds the source rewriter: it lowers a surface body, in
//!   which dependency-waits and emits appear as ordinary expressions, into an
//!   explicit suspension form, and rewrites the procedure's signature.
//! - [`machine`] defines the suspension protocol a lowered body obeys.
//! - [`stream`] and [`try_stream`] hold the two runtime wrappers; the latter
//!   treats the final value as fallible and reports a failure as the last
//!   item of the sequence instead of through the completion protocol.
//! - [`script`] holds an executable form of lowered bodies.
//! - [`laws`] states and proves the protocol-level guarantees.

pub mod context;
pub mod laws;
pub mod machine;
pub mod poll;
pub mod rewrite;
pub mod script;
pub mod stream;
pub mod try_stream;
