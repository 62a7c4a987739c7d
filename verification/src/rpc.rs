//! What the gRPC serving unit reads from its configuration.

use vstd::prelude::*;

verus! {

/// The gRPC section of a configuration.
#[derive(Debug, Clone)]
pub struct Grpc {
    /// The socket address to listen on.
    pub address: String,
}

impl Default for Grpc {
    /// The section with no address.
    fn default() -> (section: Self)
        ensures
            section.address@ == Seq::<char>::empty(),
    {
        Grpc { address: String::new() }
    }
}

/// A configuration that has a gRPC section.
pub trait Config {
    fn grpc(&self) -> &Grpc;
}

} // verus!
