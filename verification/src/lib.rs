//! A read-only HTTP façade that serves blockchain blocks by height, with two
//! finality views, backed by a shared cache and cold `.tgz` archive bundles.
//! This crate holds the decision logic — height bounds, slice routing, the
//! cache-observation state machine, the bundle reader and the derived-view
//! projection — each function with its contract; network and disk round
//! trips stay outside.

pub mod api;
pub mod cache;
pub mod jsonval;
pub mod reader;
pub mod resolver;
pub mod response;
pub mod text;
pub mod types;
pub mod views;
