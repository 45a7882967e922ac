pub mod api;
pub mod download;
pub mod dto;
pub mod session;
