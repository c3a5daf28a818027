//! The persistence core of a note-taking application: the document model,
//! the validate-and-migrate pipeline run on load, and the Markdown export.

pub mod model;
pub mod validate;
pub mod migrate;
pub mod load;
pub mod markdown;
