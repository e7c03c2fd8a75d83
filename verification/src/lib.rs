//! Reconstruction of source text from a position-annotated token tree.
//!
//! Every token carries the line/column range it occupied in the original
//! source.  The serializer walks the tree, re-emitting each token's text and
//! the exact whitespace needed to move the cursor from the end of the
//! previously emitted token to the start of the next one, so that original
//! line breaks and indentation survive.  Tokens built programmatically carry
//! the sentinel origin position and get minimal spacing instead.

pub mod laws;
pub mod position;
pub mod serialize;
pub mod tokens;
pub mod whitespace;
