//! Translucent fullscreen colour overlays: the platform-independent logic.
//!
//! An overlay is a set of borderless, always-on-top, click-through windows
//! (one per monitor) filled with a semi-transparent colour, which the system
//! compositor blends over everything else, so every pixel becomes
//! `src × (1 − α) + colour × α`. This crate holds the parts of that which are
//! decisions and data formats rather than system calls or floating-point
//! arithmetic: reading and writing hex colours, the built-in presets, the
//! error messages, the polling loop's decision, and the pixel and message
//! encodings of the Windows backend.

pub mod ascii;
pub mod color;
pub mod error;
pub mod presets;
pub mod run;
pub mod win32;

pub use color::{format_rgba8, parse_rgba8, ParseColorError};
pub use error::Error;
pub use run::{run_until, Step, POLL_INTERVAL_MS};
