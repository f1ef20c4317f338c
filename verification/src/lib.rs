//! Verified core of the bell-casting simulation backend: the decisions that
//! the services make on keys, categories and configuration values.

pub mod compute_pool;
pub mod text;
pub mod config;
pub mod strike;
pub mod casting;
pub mod materials;
pub mod alarm;
pub mod api;
pub mod tower;
pub mod queries;
pub mod services;
