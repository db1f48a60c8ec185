//! Conversation-session relay core: a typed outgoing-message composer, a
//! session state machine keyed by user mode, and the webhook processor that
//! ties them to a session store.

pub mod error_manager;
pub mod request_builder;
pub mod request_handler;
pub mod store;
pub mod structs;
pub mod textops;

pub use error_manager::ServiceError;
