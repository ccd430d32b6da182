//! Serves Markdown files from a fixed base directory as rendered HTML pages.
//!
//! The library holds the request pipeline: resolve a request path under the
//! base directory, turn the file's Markdown content into an HTML fragment,
//! wrap the fragment in a fixed page template, and produce either a success
//! response or a not-found response. Reading the file and speaking HTTP are
//! left to the surrounding program.

pub mod handler;
pub mod markdown;
pub mod paths;
pub mod template;
