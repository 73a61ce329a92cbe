//! Cycling router core: the reading of route/shop distance inputs and the
//! segment scan order (`route_filter`), the nearest-node pick of a snap
//! (`snap`), and the decisions of a route request (`route`).

use vstd::prelude::*;

pub mod route;
pub mod route_filter;
pub mod snap;

verus! {

} // verus!
