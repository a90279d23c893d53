pub mod config;
pub mod download;
pub mod downloader;
pub mod media;
pub mod task;
