//! Identity verification and session tokens for a campus network: one-time
//! codes sent by mail, signed access and refresh tokens, their revocation, and
//! the guard that stands before protected routes.
//!
//! Nothing here talks to a database, a mail server or a socket. A flow is a
//! function that is handed the database's answer to its last request and says
//! what to do next ([`flow`], [`auth`], [`middleware`]); the server around it
//! runs the requests. The same flows run against tables held in memory
//! ([`db::memory`], [`session`]), and what holds of such runs is proved in
//! [`session::theorems`].
pub mod auth;
pub mod clock;
pub mod db;
pub mod email;
pub mod flow;
pub mod ident;
pub mod middleware;
pub mod models;
pub mod password;
pub mod posts;
pub mod profile;
pub mod session;
pub mod text;
pub mod validation;
