//! Export of a tree of typed content blocks into flat structured text.
//!
//! The library holds the verified core: rendering rich-text spans, resolving
//! media references, turning block trees into structured text, accumulating
//! cursor-paginated batches, and memoizing page titles.

pub mod block;
pub mod cache;
pub mod fetch;
mod links;
pub mod media;
pub mod orchestrate;
pub mod rich;
pub mod text;

pub use links::external_embed;
pub use links::external_link;
pub use links::internal_embed;
pub use links::internal_link;
