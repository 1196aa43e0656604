//! Sonata: the domain model and decision logic of a media-presence daemon,
//! each function with a proved contract.
pub mod activity;
pub mod browser;
pub mod config;
pub mod daemon;
pub mod discord;
pub mod duration;
pub mod error;
pub mod event;
pub mod gsmtc;
pub mod ipc;
pub mod model;
pub mod mpris;
pub mod native_messaging;
pub mod protocol;
pub mod publisher;
pub mod text;
