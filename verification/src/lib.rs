//! Verified core of a Discord bot that announces coins listed by the Zora
//! explore API: the data model of the API's answer, the texts the bot sends,
//! the commands it understands, the polling and retry decisions, and the
//! request bodies it builds. Network, Discord and HTTP-server plumbing live
//! outside this library.

pub mod text;
pub mod models;
pub mod json;
pub mod api;
pub mod bot;
pub mod web;
pub mod ethereum;
