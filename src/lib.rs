//! A clock widget for a status bar: it decides when the shown minute is stale,
//! renders the date and the time into a lent pixel buffer through bounds-checked
//! regions and cached text rasterizers, and tells its scheduler how long to sleep
//! until the next minute boundary.

/// Pixel buffers, colors and bounds-checked regions.
pub mod buffer;
/// The clock widget and its update/draw state machine.
pub mod clock;
/// The text of the date line and the time line.
pub mod format;
/// Text rasterizers bound to a point size, and their layouts.
pub mod text;
/// Wall-clock snapshots, calendar validity and the minute scheduler's delay.
pub mod time;
