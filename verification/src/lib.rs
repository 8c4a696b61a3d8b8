//! Request construction, rate limiting and response classification for the
//! ip-api.com geolocation service.

pub mod client;
pub mod constant;
pub mod error;
pub mod limiter;
pub mod model;
pub mod request_handler;
pub mod text;
pub mod util;
