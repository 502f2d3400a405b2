//! A cache that loads what it is asked for and does not hold, and keeps it for the next request.
//!
//! This crate decides; it does not wait. [`cache_api`] prepares the requests to a cache,
//! [`exchange`] follows each of them to its end, [`internal_cache`] holds the entries and decides
//! what each action does to them, [`backing`] is where they are kept, [`loading`] says what follows
//! the end of a load, and [`channels`] holds what requests and answers travel on. [`laws`] states
//! what holds of all that together.

pub mod backing;
pub mod cache_api;
pub mod channels;
pub mod error;
pub mod exchange;
pub mod internal_cache;
pub mod laws;
pub mod loading;
pub mod outside;
