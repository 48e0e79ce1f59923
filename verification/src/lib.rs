//! The core of a minimal static-site generator.
//!
//! A site is a tree of Markdown sources with YAML front-matter under
//! `site/`, and templates under `templates/`. The library turns one source
//! into one HTML page, and resolves the URL paths of a preview server to the
//! files that answer them. It never touches a file: wherever a decision
//! depends on what is on disk, it asks, and the caller answers.
//!
//! - [`source`] splits a source into front-matter and body;
//!   [`front_matter`] holds the decoded front-matter; [`render`] makes the
//!   page and expands its template; [`engines`] holds what is taken on trust
//!   from the YAML, Markdown and template crates.
//! - [`path`] is the grammar of paths; [`resolver`] maps a request path to a
//!   file; [`preview`] answers a request, rendering where the resolver says
//!   so.
//! - [`artifact`] plans a build and frames its artifacts; [`cli`] selects the
//!   mode of the program; [`error`] names what can go wrong.
//! - [`site`] and [`generator`] state, against a model of the files, what
//!   serving and building come to; [`laws`] proves how they hang together.

pub mod error;
pub mod text;
pub mod path;
pub mod site;
pub mod resolver;
pub mod source;
pub mod front_matter;
pub mod engines;
pub mod render;
pub mod preview;
pub mod artifact;
pub mod cli;
pub mod generator;
pub mod laws;
