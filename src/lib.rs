//! Parsing of metric selector expressions such as `up{job="prometheus"}`,
//! with diagnostics that point into the caller's source text, and the
//! argument rules of the plugin's commands.

pub mod client;
pub mod commands;
pub mod diagnostic;
pub mod grammar;
pub mod laws;
pub mod lexical;
pub mod parser;
pub mod plugin;
pub mod query;
pub mod selector;
pub mod selector_parser;
pub mod source;

pub use client::Scrape;
pub use commands::{ParseFormat, Prometheus, TargetState};
pub use diagnostic::{Diagnostic, DiagnosticLabel, Span};
pub use grammar::{ErrorKind, ParseError};
pub use plugin::Plugin;
pub use selector::{LabelMatcher, Operator, Selector};
pub use selector_parser::SelectorParser;
