use vstd::prelude::*;

/// Processor architectures and their names.
pub mod architecture;

/// File helpers.
pub mod file;

/// Desktop notifications.
pub mod notify;

/// Operating system families and their names.
pub mod platform;

pub use architecture::Architecture;
pub use platform::Platform;

verus! {

/// Whether two texts hold the same characters.
pub(crate) fn same_text(a: &str, b: &str) -> (r: bool)
    ensures
        r == (a@ == b@),
{
    String::from_str(a) == String::from_str(b)
}

} // verus!
