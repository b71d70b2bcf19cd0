use vstd::prelude::*;

verus! {

/// The ways in which provisioning, bootstrapping or funding can fail.
#[derive(PartialEq, Eq, Structural, Clone, Copy, Debug)]
pub enum ErrorKind {
    /// The node resource failed to start or to expose its RPC port.
    Provisioning,
    /// The endpoint could not be derived or does not parse as a URL.
    Configuration,
    /// The managed wallet already exists or the node rejected its creation.
    WalletCreation,
    /// Any other rejection by the node: malformed address, lost connection.
    NodeRpc,
    /// A transfer asked for more than the wallet can spend.
    InsufficientFunds,
}

/// The error of every fallible operation of this library.
#[derive(PartialEq, Eq, Structural, Clone, Copy, Debug)]
pub struct Error {
    pub kind: ErrorKind,
}

pub type Result<T> = core::result::Result<T, Error>;

impl Error {
    pub fn new(kind: ErrorKind) -> (r: Error)
        ensures
            r.kind == kind,
    {
        Error { kind }
    }

    pub fn kind(&self) -> (r: ErrorKind)
        ensures
            r == self.kind,
    {
        self.kind
    }
}

} // verus!
