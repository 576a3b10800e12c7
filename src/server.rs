use vstd::prelude::*;

verus! {

/// The chat server.
pub struct Server;

impl Server {
    pub fn new() -> Self {
        Server
    }
}

} // verus!
