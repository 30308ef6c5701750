//! A URL shortener's core: input validation, short-code minting, the
//! mapping store, and the decisions of the persistent shortening service.

pub mod validation;
pub mod models;
pub mod codegen;
pub mod store;
pub mod record;
pub mod service;
pub mod config;
pub mod responses;
pub mod handlers;
