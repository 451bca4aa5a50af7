//! Configuration resolution and run orchestration for a Markdown-to-PDF converter.
pub mod bootstrap;
pub mod config;
pub mod error;
pub mod paths;
pub mod pipeline;
pub mod text;
