//! Window enumeration for a tiling layer: a verified model of the windows that
//! a windowing system reports, the session that reads them, and the title
//! shrinker that keeps displayed titles short.

pub mod decimal;
pub mod provider;
pub mod scan;
pub mod title;
pub mod window;

pub use provider::{Layout, X11Provider};
pub use scan::{Phase, ScanAction, ScanError, ScanEvent, ScanSession};
pub use title::{shrink, MAX_WINDOW_TITLE_LENGTH};
pub use window::{PidProperty, Screen, Window, WindowAttributes};
