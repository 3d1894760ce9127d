//! Rendering core of a terminal disk-telemetry panel.
//!
//! Given an immutable snapshot of per-disk usage figures, pre-fetched I/O and
//! used-space history windows, and the process table, the library composes a
//! description of what the panel should show this frame: a selector list of
//! all file systems with per-entry emphasis, and a detail pane holding either
//! live read/write activity strips or a static usage readout for the selected
//! file system. Painting the description onto a terminal is left to the
//! caller; everything decided here (texts, scales, styles) is verified.

pub mod activity;
pub mod bytefmt;
pub mod laws;
pub mod lookup;
pub mod model;
pub mod panel;
pub mod scale;
pub mod text;
pub mod usage;

pub use panel::render_disk;
