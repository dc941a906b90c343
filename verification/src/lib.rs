//! A verified library for a QQ bot gateway: event and message models,
//! protocol conversions between OneBot v11, OneBot v12 and Satori,
//! configuration validation, event deduplication and request routing.

pub mod text;
pub mod json;
pub mod json_text;
pub mod ieee;
pub mod message;
pub mod time;
pub mod error;
pub mod api;
pub mod event;
pub mod satori_elements;
pub mod satori;
pub mod onebot_v11;
pub mod onebot_v12;
pub mod config;
pub mod validation;
pub mod plugin;
pub mod adapter;
pub mod dedup;
pub mod stats;
pub mod tuning;
pub mod shared_config;
pub mod router;
pub mod auth;
pub mod storage;
pub mod official;
pub mod lagrange;
pub mod failover;
pub mod manager;
pub mod management;
pub mod echo;
pub mod plugin_engine;
pub mod servers;
pub mod startup;
pub mod element_laws;
