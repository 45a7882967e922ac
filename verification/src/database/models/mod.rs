pub mod v1;
pub mod v2;
