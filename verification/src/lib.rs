//! Subscribes to a time-tracking provider's webhooks and decodes the
//! callbacks it sends into typed events.

pub mod config;
pub mod decode;
pub mod endpoint;
pub mod event;
pub mod ingress;
pub mod json;
pub mod provider;
pub mod reconcile;
pub mod startup;
pub mod subscription;
pub mod text;
pub mod wire;
