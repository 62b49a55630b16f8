//! Markdown note taking: the note index, the editor hand-off and the
//! interactive list viewer, as verified logic over plain values.
//!
//! Nothing here touches the terminal, the file system, the clock or a
//! child process. A caller reads and writes; this crate decides:
//!
//! - [`note`]: notes, valid titles, and the paths of note files;
//! - [`store`]: what an index file stands for, and loading, saving and
//!   appending;
//! - [`editor`]: which editor to run, and what its exit means;
//! - [`input`]: the key bindings;
//! - [`viewer`]: the viewer's state and its transitions;
//! - [`layout`], [`render`], [`calendar`]: what the viewer draws, and where.

pub mod calendar;
pub mod editor;
pub mod input;
pub mod layout;
pub mod note;
pub mod render;
pub mod store;
pub mod viewer;
