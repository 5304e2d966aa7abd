//! The account configuration.

use vstd::prelude::*;

use crate::backend::Backend;

verus! {

/// One configured account: whether it is the default, and the backend
/// its secret lives in.
pub struct Account {
    pub default: bool,
    pub backend: Backend,
}

} // verus!
