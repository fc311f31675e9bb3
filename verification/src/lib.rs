//! Serial session runtime: device discovery, a serial connection model, a
//! background read loop, and a shared append-only text buffer, together with
//! the terminal-side helpers (logger, banners, host details) that consume it.

pub mod banner;
pub mod buffer;
pub mod commands;
pub mod connection;
pub mod details;
pub mod discovery;
pub mod initial;
pub mod logger;
pub mod project;
pub mod read_loop;
pub mod session;
pub mod text;

pub use buffer::SharedBuffer;
