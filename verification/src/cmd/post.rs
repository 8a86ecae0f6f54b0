//! The single-shot command that fetches one block.

use vstd::prelude::*;
use crate::client::{Client, HttpRequest};
use crate::json::{height_params, rpc_body};

verus! {

/// Fetches the block at one height.
#[derive(Debug, Clone, Copy, PartialEq, Eq, Structural)]
pub struct Post {
    /// block number
    pub height: u64,
}

impl Post {
    /// The request that the command makes: the one for the block at its
    /// height, to an endpoint of the client drawn at random.
    pub fn exec(&self, client: &Client) -> (r: HttpRequest)
        ensures
            exists|i: int|
                0 <= i < client.spec_endpoints().len() && r.url@ == client.spec_endpoints()[i],
            r.body@ == rpc_body("eth_getBlockByNumber"@, height_params(self.height)),
    {
        client.get_block_by_height(self.height)
    }
}

} // verus!
