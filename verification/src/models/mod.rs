//! The records the flows work on.
pub mod comment;
pub mod otp;
pub mod post;
pub mod profile;
pub mod user;
