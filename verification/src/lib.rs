//! Request handling for a WebRTC signaling server: GitHub OAuth2 sign-in
//! decisions, the user registry, and the authenticated key-value API that
//! peers use to exchange signaling data.
pub mod auth;
pub mod web;
