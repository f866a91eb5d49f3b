//! Relay library: turns monitoring alert payloads into Feishu card messages
//! and fans them out to configured webhook endpoints.
//!
//! The crate is organised leaf-first:
//! - [`color`] derives a stable (background, foreground) style pair from a string;
//! - [`types`] holds the configuration and payload data model;
//! - [`textutil`] has the verified string helpers the other modules share;
//! - [`timestamp`] renders a clock reading as `YYYY-MM-DD HH:MM:SS`;
//! - [`outside`] holds the trusted declarations for the outside crates;
//! - [`convert`] extracts metadata from an alert and renders the card;
//! - [`config`] is the cached, reloadable configuration store;
//! - [`dispatch`] resolves an endpoint and fans a message out under a
//!   concurrency bound;
//! - [`routes`] names the HTTP paths the surrounding server mounts.

pub mod color;
pub mod config;
pub mod convert;
pub mod dispatch;
pub mod outside;
pub mod routes;
pub mod textutil;
pub mod timestamp;
pub mod types;
