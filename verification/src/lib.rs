//! The logic of a desktop markdown editor's native shell: the application
//! menu and the events its items stand for, the hand-over of a file that the
//! system asked to open, and the decisions around file and export commands.
//!
//! Nothing here touches a window, a file or a process. Each function takes
//! what the host observed as plain values and says what is to be done next.

pub mod command;
pub mod convert;
pub mod error;
pub mod files;
pub mod menu;
pub mod payload;
pub mod pdf;
pub mod pending;
pub mod process;
pub mod text;
