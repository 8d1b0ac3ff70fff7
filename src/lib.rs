//! Modal core of a terminal chat client: editable text buffers, cursor
//! motions, per-destination message logs, the server/channel tree and the
//! vim-style mode machine that ties them together.

pub mod chars;
pub mod text;
pub mod words;
pub mod motion;
pub mod messages;
pub mod store;
pub mod tree;
pub mod servers;
pub mod irc;
pub mod app;
pub mod editing;
pub mod cmdline;
pub mod session;
pub mod modes;
pub mod commands;
pub mod dispatch;
pub mod interpret;
pub mod resolve;
pub mod events;
pub mod keys;
pub mod mouse;
