//! Tasks and the backends that carry them out.

pub mod client_trait;
pub mod download_client;
pub mod fetch_client;
pub mod r2_client;
