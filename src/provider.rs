//! The native window provider.
use vstd::prelude::*;

verus! {

/// An arrangement of windows to apply. This crate hands it on and never reads
/// it.
#[derive(Clone, Debug, PartialEq, Eq)]
pub struct Layout {}

/// The provider backed by an X11 display. An enumeration runs as a
/// `ScanSession`, whose actions the caller performs against the display.
#[derive(Debug)]
pub struct X11Provider {}

impl Default for X11Provider {
    fn default() -> (r: Self)
        ensures
            r == (X11Provider {}),
    {
        X11Provider {}
    }
}

impl X11Provider {
    /// Applies an arrangement. No arrangement engine stands behind this
    /// provider: every layout is accepted and nothing changes.
    pub fn layout(&self, _config: &Layout) {
    }
}

} // verus!
