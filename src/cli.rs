/// Stacked, verbosity-gated terminal output.
pub mod output;

pub use output::OutputManager;
