//! A small real-time arcade shooter, reduced to the rules that decide what
//! happens each frame: rectangle geometry, sprite regions and animation
//! clocks, input sampling, frame pacing, view switching, and the menu and
//! gameplay screens. Everything is stated over integers: positions and sizes
//! of moving entities are in thousandths of a pixel, frame time in
//! milliseconds, animation time in microseconds.

pub mod phi;
pub mod views;
