//! The route descriptor: what the dispatcher needs to identify and invoke
//! one handler.

use vstd::prelude::*;

verus! {

/// The HTTP method of a route, as far as dispatch needs to tell handlers
/// apart.
#[derive(Clone, Copy, PartialEq, Eq, Structural, Debug)]
pub enum Method {
    Get,
    Post,
    Put,
    Delete,
    Head,
    Options,
    Patch,
}

/// One declared handler. Identity is structural: the method, the path
/// template relative to the declaring module (not yet prefixed by any mount
/// point), and the reference under which the dispatcher invokes the handler.
/// Two modules may declare colliding descriptors; that is allowed and never
/// merged.
#[derive(Debug, PartialEq, Eq)]
pub struct Route {
    pub method: Method,
    pub path: String,
    pub handler: u64,
}

impl Clone for Route {
    fn clone(&self) -> (r: Self)
        ensures
            r == *self,
    {
        Route { method: self.method, path: self.path.clone(), handler: self.handler }
    }
}

} // verus!
