//! Verified core of a native in-app-purchase bridge.
//!
//! The crate models the boundary between a host application and a
//! platform-native purchase module: a listener registry with best-effort
//! fan-out dispatch, a marshaling layer that turns raw native outcomes into
//! typed results or structured errors, and a pre-flight signature gate that
//! blocks privileged calls when the running binary's code signature cannot
//! be validated.

pub mod decimal;
pub mod error;
pub mod facade;
pub mod gate;
pub mod marshal;
pub mod models;
pub mod registry;
pub mod relay;
