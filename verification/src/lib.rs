//! Renders the types and functions of an interface definition as
//! cross-linked Markdown, each named type annotated with its size and
//! alignment.

pub mod model;
pub mod text;
pub mod docs;
pub mod anchor;
pub mod layout;
pub mod printer;
pub mod validate;
pub mod section;
pub mod entries;
pub mod markdown;
pub mod laws;
