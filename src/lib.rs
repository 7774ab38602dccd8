//! Useful building blocks for command-line tools: stacked and colour-coded terminal
//! output, a unified error type, and small portable helpers around the host system.

/// Terminal output: indentation, log channels and prompts.
pub mod cli;

/// The unified error type.
pub mod error;

/// System helpers: platform and architecture names, files and notifications.
pub mod sys;
