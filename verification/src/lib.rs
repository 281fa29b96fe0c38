pub mod pam;
pub mod text;
pub mod error;
pub mod storage;
pub mod config;
pub mod auth;
pub mod face;
pub mod camera;
pub mod enroll;
