//! Decision logic behind a desktop shell's native file commands: reading file
//! metadata, copying an image to the clipboard, moving a file to the trash and
//! revealing a file in the platform's file manager.
//!
//! Every command is split into the part that decides and the part that touches
//! the operating system. This crate holds the deciding part: it validates the
//! input, says what has to be done and turns what the operating system answered
//! into the command's result.
pub mod clipboard;
pub mod error;
pub mod file_manager;
pub mod file_type;
pub mod imaging;
pub mod laws;
pub mod metadata;
pub mod paths;
pub mod text;
pub mod trash;
