//! The caller's identity, as resolved before a store is called.

use vstd::prelude::*;

verus! {

/// The user on whose behalf a store operation runs.
#[derive(Debug, Clone, Copy, PartialEq, Eq)]
pub struct UserCtx {
    pub user_id: i64,
}

} // verus!
