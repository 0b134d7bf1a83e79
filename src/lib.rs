//! Rewrites a `macro_rules!` definition so that its visibility follows the
//! rules of ordinary items: the definition is renamed to a fresh internal name
//! and re-exported under its own name with the requested visibility.
//!
//! - [`token`]: the token trees the library works on; their span type is
//!   left to the caller and carried through unchanged.
//! - [`visibility`]: the attribute's argument, read as a visibility.
//! - [`definition`]: the annotated item, and the scan of its attributes for
//!   `#[doc(hidden)]`.
//! - [`expand`]: the rewrite.
//! - [`laws`]: properties relating the parser and the rewrite.

pub mod token;
pub mod visibility;
pub mod definition;
pub mod expand;
pub mod laws;
