//! Verified core of an ani.gamer.com.tw anime downloader: title and page
//! parsing, download planning and the small text rules it relies on.

pub mod text;
pub mod util;
pub mod pattern;
pub mod anime;
pub mod request;
pub mod config;
pub mod ffmpeg;
pub mod sn_list;
pub mod device_id;
pub mod dom;
pub mod index_map;
pub mod anime_episode;
