//! Broker-side logic: configuration, authentication, sessions, retained
//! messages and the decisions taken for each packet a client sends.

pub mod config;
pub mod auth;

pub use config::ServerConfig;
pub use auth::Authentication;
pub mod session;
pub mod topic;
pub mod router;
pub mod connection;

pub use session::{Session, Subscription, SessionManager};
pub use router::MessageRouter;
