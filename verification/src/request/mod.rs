//! The site's JSON bodies and the requests the library plans.

pub mod common;
pub mod device_id;
pub mod playlist;
pub mod token;
pub mod anime_video;
pub mod client;
