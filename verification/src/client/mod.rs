//! Client-side logic: connection states, configuration, and the packets a
//! client sends and how it answers those it receives.

pub mod state;
pub mod config;
pub mod connection;
pub mod handler;
pub mod driver;

pub use state::ConnectionState;
pub use config::ClientConfig;
pub use handler::DefaultMessageHandler;
pub use driver::ClientCore;
