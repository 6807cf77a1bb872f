//! Core of a URL-shortening service: validation and random generation of
//! slugs, and a durable, unique slug-to-target mapping backed by an embedded
//! store.

pub mod codec;
pub mod store;

use vstd::prelude::*;

verus! {

/// Process-wide configuration for the service built around the store.
pub struct Config {
    /// Full domain used in rendered links, excluding protocol and trailing
    /// slash.
    pub domain: String,
    /// Authorization token used to restrict who may create links.
    pub token: String,
    /// Length of the slugs to generate.
    pub length: usize,
    /// Filesystem path where the persistent store lives.
    pub db_path: String,
}

} // verus!
