//! A client for a part of Discord's REST API, without the network.
//!
//! The library decides and computes: which header a token gives, which
//! address a request goes to, what a reply means. Its caller sends the
//! requests and hands the replies back.

pub mod admin;
pub mod auth;
pub mod fields;
pub mod json;
pub mod members;
pub mod model;
pub mod routes;
pub mod text;
pub mod trusted;
pub mod user;

pub use admin::admin_check;
pub use members::get_users;
pub use model::{FetchedUser, RawGuildUser, RawUser};
pub use text::get_json_string;
pub use user::fetch_single_user;
