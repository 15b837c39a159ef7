//! Visual themes for the egui toolkit: the bundled fonts, how they are
//! installed into the toolkit's font definitions and which text styles they
//! size; the sector rule of the HSV to RGB conversion and the colour it
//! yields; and the tables from which the tinted themes derive their shades.
pub mod definitions;
pub mod font;
pub mod hsv;
pub mod theme;

pub use font::{Family, Font, TextKind};
pub use theme::Preset;
