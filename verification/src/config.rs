//! Where the services find PostgreSQL and Redis.

use vstd::prelude::*;

verus! {

/// The connection URLs of the two stores.
#[derive(Clone)]
pub struct Config {
    pub postgres_url: String,
    pub redis_url: String,
}

} // verus!
