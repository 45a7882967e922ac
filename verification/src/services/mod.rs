pub mod archive;
pub mod dlsite_service;
pub mod download_service;
pub mod sync;
