pub mod catalog;
pub mod models;
pub mod tables;
