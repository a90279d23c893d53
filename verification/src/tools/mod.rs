pub mod archive;
pub mod install;
pub mod release;
pub mod version;
