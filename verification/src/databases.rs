//! Utilities for working with databases: named connection pools.

use vstd::prelude::*;

verus! {

/// A database pool.
pub trait DatabasePool {
    /// The name of this database pool.
    fn name() -> &'static str;
}

/// A pool of connections to a key-value store.
pub trait RedisPool: DatabasePool {

}

} // verus!
