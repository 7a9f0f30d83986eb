use vstd::prelude::*;

pub mod acceptor;
pub mod client;
pub mod envelope;
pub mod response;
pub mod shutdown;

verus! {

/// The command that serves HTTP requests over a local socket.
pub struct HTTPServe;

impl HTTPServe {
    /// The command's name.
    pub fn name(&self) -> (r: &'static str)
        ensures
            r@ == "h. serve"@,
    {
        "h. serve"
    }

    /// A one-line description of the command.
    pub fn usage(&self) -> (r: &'static str)
        ensures
            r@ == "Service HTTP requests"@,
    {
        "Service HTTP requests"
    }
}

} // verus!
