//! An embeddable WebSocket broadcast hub: the rules of its host facade, of the
//! supervisor's lifecycle and of each connection task, with the values that
//! travel between them.

pub mod api;
pub mod channels;
pub mod config;
pub mod connection;
pub mod error;
pub mod lifecycle;
pub mod payload;
pub mod registry;
pub mod wire;

pub use api::drain_client_message_bytes;
pub use api::finish_start;
pub use api::get_last_error_string;
pub use api::is_server_running;
pub use api::shutdown_server;
pub use api::start_server;
pub use api::try_send_messages;
pub use api::StartStep;
pub use channels::ServerState;
pub use config::Config;
pub use error::HubError;
pub use payload::Frame;
pub use payload::MessagePayload;
pub use registry::Registry;
