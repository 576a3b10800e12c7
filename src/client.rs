use vstd::prelude::*;

verus! {

/// A chat client for the server at `remote_address`.
pub struct Client {
    remote_address: String,
}

impl Client {
    pub closed spec fn address(&self) -> Seq<char> {
        self.remote_address@
    }

    pub fn new(remote_address: String) -> (r: Self)
        ensures
            r.address() == remote_address@,
    {
        Client { remote_address }
    }

    /// The address of the server to connect to.
    pub fn remote_address(&self) -> (r: &str)
        ensures
            r@ == self.address(),
    {
        self.remote_address.as_str()
    }
}

} // verus!
