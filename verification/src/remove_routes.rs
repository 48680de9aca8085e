//! A request to drop a set of host routes: authenticated by a ping
//! token and naming the routes to remove.

use vstd::prelude::*;

use crate::ping::Ping;

verus! {

pub struct RemoveRoutes {
    pub ping: Ping,
    pub routes: Vec<String>,
}

} // verus!
