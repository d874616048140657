pub mod apis;
pub mod auth;
pub mod client;
pub mod codec;
pub mod id;
pub mod models;
pub mod text;

pub use auth::Authorization;
pub use client::{Builder as ClientBuilder, Client};
pub use id::Uuid;
