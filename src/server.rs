//! The listening end of the server, as far as it is plain data: the address
//! it binds to. Accepting connections and reading from them is left to the
//! program that embeds this library.
use vstd::prelude::*;

verus! {

/// A server that will listen on `addr` (for example `127.0.0.1:8080`).
pub struct Server {
    addr: String,
}

impl View for Server {
    type V = Seq<char>;

    closed spec fn view(&self) -> Seq<char> {
        self.addr@
    }
}

impl Server {
    /// A server for the given address.
    pub fn new(addr: String) -> (r: Server)
        ensures
            r@ == addr@,
    {
        Server { addr }
    }

    /// The address the server listens on.
    pub fn addr(&self) -> (r: &str)
        ensures
            r@ == self@,
    {
        self.addr.as_str()
    }
}

} // verus!
