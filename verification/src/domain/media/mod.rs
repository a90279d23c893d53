pub mod info;

pub use info::{parse_resolution, MediaInfo};
