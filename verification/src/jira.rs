pub mod error;
pub mod paginator;
pub mod projects;
pub mod store;
pub mod tickets;
pub mod transitions;
pub mod transport;
