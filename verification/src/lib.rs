//! Generates icon wrapper components: a declarative configuration lists
//! icons (name, style or explicit import path, component name); for each
//! icon a single template is rendered with three substitution values and
//! the result becomes one source file named after the component.
//!
//! The library covers the whole pipeline except I/O: the configuration
//! model and its validation, import-path resolution, template compilation
//! and rendering (through the tera engine), and the per-icon generation
//! step that produces a file name and its content.

pub mod config;
pub mod errors;
pub mod generate;
pub mod paths;
pub mod template;
