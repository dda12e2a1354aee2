//! Settings of the browser.

use vstd::prelude::*;

verus! {

/// What the user configured.
#[derive(Debug, Clone, Copy, PartialEq, Eq, Structural)]
pub struct Conf {
    /// Show sizes in binary units rather than bytes.
    pub use_human_units: bool,
    /// Show a preview of the selected file.
    pub preview_files: bool,
}

} // verus!
