//! What a handler of gateway events knows about the connection it serves.

use crate::id::ShardId;
use vstd::prelude::*;

verus! {

/// The context of the handlers of one connection. The kernel, which all
/// connections share, is handed to each handler beside it.
#[derive(Debug, Clone, Copy, PartialEq, Eq)]
pub struct Context {
    shard_id: ShardId,
}

impl View for Context {
    type V = ShardId;

    closed spec fn view(&self) -> ShardId {
        self.shard_id
    }
}

impl Context {
    /// The context of the connection `shard_id`.
    pub fn new(shard_id: ShardId) -> (context: Context)
        ensures
            context@ == shard_id,
    {
        Context { shard_id }
    }

    /// The connection that the handlers serve.
    pub fn shard_id(&self) -> (shard_id: ShardId)
        ensures
            shard_id == self@,
    {
        self.shard_id
    }
}

} // verus!
