//! Export of a repository's releases as delimited text.

pub mod flatten;
pub mod input;
pub mod lines;
pub mod release;
pub mod request;
pub mod shell;
pub mod std_text;

pub use release::{Author, Release, ReleaseView};
