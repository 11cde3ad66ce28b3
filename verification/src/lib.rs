//! Combines the contents of files into one document for the clipboard, and
//! tells what the clipboard of the machine needs.
//!
//! The library decides and formats; it reads no file and starts no program.
//! Its caller looks at the files and runs the clipboard helper, and hands in
//! what it found. The one thing the library asks of the machine itself is
//! the user's home directory, for the full display of paths.

pub mod aggregate;
pub mod clipboard;
pub mod descent;
pub mod display;
pub mod environment;
pub mod invocation;
pub mod laws;
pub mod paths;
pub mod text;
