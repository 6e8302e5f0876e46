//! Recognition dispatch for formula, text and document images: model
//! catalog, daily usage counters, provider replies and the
//! recognise-then-verify protocol.

pub mod text;
pub mod account;
pub mod catalog;
pub mod json;
pub mod provider;
pub mod recognize;
pub mod settings;
pub mod usage;
