//! TermPop: a popup text editor for the terminal.
//!
//! The verified library holds the logic of the tool: the wire format of the
//! daemon protocol, the decisions of the daemon and of the client, hotkey
//! parsing, the launchd agent file, the editor's key bindings and the plan of
//! the clipboard paste.  Windowing, sockets and files stay in `app/`.

pub mod cli;
pub mod clipboard;
pub mod config;
pub mod daemon;
pub mod editor;
pub mod ipc;
pub mod launchd;
pub mod paths;
pub mod text;
pub mod window;
