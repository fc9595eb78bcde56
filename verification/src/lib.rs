//! Verified core of a Twitch channel-points overlay: OAuth URL and redirect
//! handling, token bookkeeping, EventSub session decisions and the small HTTP
//! answers of the overlay server.

pub mod text;
pub mod auth;
pub mod redirect;
pub mod http;
pub mod clock;
pub mod random;
pub mod connect;
pub mod twitch;
pub mod httpserver;
pub mod configparser;
