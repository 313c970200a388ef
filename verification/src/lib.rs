//! Core of a signed, address-keyed key-value serving layer.
//!
//! Clients read, write and delete records under an address of their choice
//! and an optional sub-id. Three tiers cooperate: a probabilistic existence
//! filter, a short-lived cache and an authoritative durable store. This
//! crate holds the rules that keep them coherent, stated as contracts and
//! proved.
//!
//! The crate does no input or output. A request runs as a session: each
//! step names the request that is to be carried to a tier, and the next
//! step is made from the tier's answer. Whoever drives a session reaches the
//! tiers in whatever way it likes.
//!
//! - [`envelope`] admits a request by its signed envelope.
//! - [`handlers`] starts a request and shapes its reply.
//! - [`read`], [`write`] and [`delete`] are the three sessions.
//! - [`tier`] is the key-value interface of the two stores; [`cache`] and
//!   [`durable`] are each store's side of it.
//! - [`filter`] is the existence filter, and [`lifecycle`] carries it across
//!   restarts.
//! - [`laws`] states what holds of requests that follow one another.

pub mod cache;
pub mod constants;
pub mod delete;
pub mod durable;
pub mod envelope;
pub mod errors;
pub mod filter;
pub mod handlers;
pub mod hex;
pub mod interfaces;
pub mod json;
pub mod laws;
pub mod lifecycle;
pub mod mapping;
pub mod read;
pub mod responses;
pub mod tier;
pub mod utils;
pub mod write;
