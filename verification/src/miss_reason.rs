//! Why a compilation was not served from the cache.

use vstd::prelude::*;

verus! {

/// The reason is not known.
pub const UNKNOWN: &'static str = "unknown";

/// The invocation cannot be cached.
pub const UNCACHEABLE_INPUT: &'static str = "uncacheable_input";

} // verus!
