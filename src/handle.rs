use vstd::prelude::*;
use url::Url;
use crate::bootstrap::{wallet_name, wallet_name_spec};
use crate::endpoint::{locator_of, resolve_endpoint, url_accepts};
use crate::error::{Error, ErrorKind};

verus! {

/// What a node handle knows of its node: the node's identifier, the URL that
/// reaches its RPC service, and the name of the one wallet it manages, which is
/// fixed for the handle's whole life.
pub struct NodeHandle {
    container_id: String,
    node_url: Url,
    wallet_name: String,
}

impl NodeHandle {
    pub closed spec fn spec_container_id(&self) -> Seq<char> {
        self.container_id@
    }

    pub closed spec fn spec_wallet_name(&self) -> Seq<char> {
        self.wallet_name@
    }

    /// Builds the handle of a started node from its identifier, its RPC
    /// credentials and the host port mapped to its RPC port. Fails with a
    /// configuration error where the port is not mapped or the endpoint does
    /// not parse.
    pub fn new(container_id: String, username: &str, password: &str, port: Option<u16>) -> (r: crate::error::Result<NodeHandle>)
        ensures
            r.is_ok() <==> port is Some && url_accepts(locator_of(username@, password@, port->0)),
            r.is_err() ==> r == Err::<NodeHandle, Error>(Error { kind: ErrorKind::Configuration }),
            r.is_ok() ==> r->Ok_0.spec_container_id() == container_id@ && r->Ok_0.spec_wallet_name()
                == wallet_name_spec(),
    {
        match resolve_endpoint(username, password, port) {
            Ok(node_url) => Ok(NodeHandle { container_id, node_url, wallet_name: wallet_name() }),
            Err(e) => Err(e),
        }
    }

    pub fn container_id(&self) -> (r: &str)
        ensures
            r@ == self.spec_container_id(),
    {
        self.container_id.as_str()
    }

    pub fn node_url(&self) -> (r: &Url) {
        &self.node_url
    }

    pub fn wallet_name(&self) -> (r: &str)
        ensures
            r@ == self.spec_wallet_name(),
    {
        self.wallet_name.as_str()
    }
}

} // verus!
