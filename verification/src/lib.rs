//! RealmChat: the verified core of a real-time chat service with worlds,
//! locations, friendships and direct messages.

pub mod text;
pub mod ids;
pub mod time;
pub mod error;
pub mod models;
pub mod protocol;
pub mod rows;
pub mod friends;
pub mod client_state;
pub mod client_app;
pub mod accounts;
pub mod handlers;
pub mod hub;
pub mod session;
pub mod client_socket;
pub mod flows;
