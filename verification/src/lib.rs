//! Verified core of a WiredTiger binding: error codes, data items,
//! C-string argument checks, build-configuration text processing and
//! the page-log service interfaces.

use vstd::prelude::*;

pub mod args;
pub mod build_config;
pub mod build_laws;
pub mod error;
pub mod item;
pub mod page_log;
pub mod text;

pub use error::{
    check_error, Error, WT_CACHE_FULL, WT_DUPLICATE_KEY, WT_NOTFOUND, WT_ROLLBACK,
};
pub use item::{Item, Modify};

verus! {

/// Adds two unsigned integers.
pub fn add(left: u64, right: u64) -> (sum: u64)
    requires
        left + right <= u64::MAX,
    ensures
        sum == left + right,
{
    left + right
}

} // verus!
