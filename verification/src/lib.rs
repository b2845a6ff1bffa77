//! The core of an interactive client for a Jira-like issue tracker: following
//! paginated listings, keeping ticket comments in a local store, and the
//! widgets that let an operator browse ticket relations and apply workflow
//! transitions. Everything here works on plain values; network, storage and
//! terminal I/O belong to the application around it.

pub mod config;
pub mod event;
pub mod jira;
pub mod text;
pub mod widgets;
