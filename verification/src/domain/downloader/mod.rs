pub mod args;
pub mod carries;
pub mod m3u8dl;

pub use m3u8dl::M3U8DLDownloader;
