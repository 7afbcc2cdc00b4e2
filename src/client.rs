use std::sync::Arc;
use vstd::prelude::*;

use crate::pallet::{AccountId, DispatchError, Origin, Pallet, RegistryView};

verus! {

/// Names a finalized block, and with it the state that the block left.
pub type BlockHash = u64;

/// The names of the registry as a block left them.
pub type Snapshot = Map<AccountId, Seq<u8>>;

/// Dependencies handed to the query endpoints when a node starts.
pub struct FullDeps<C, P> {
    /// The client instance to use.
    pub client: Arc<C>,
    /// Transaction pool instance.
    pub pool: Arc<P>,
}

/// The position of the most recent block with hash `hash` in `blocks`.
pub open spec fn latest_index(blocks: Seq<(BlockHash, Snapshot)>, hash: BlockHash) -> Option<int>
    decreases blocks.len(),
{
    if blocks.len() == 0 {
        None
    } else if blocks.last().0 == hash {
        Some(blocks.len() - 1)
    } else {
        latest_index(blocks.drop_last(), hash)
    }
}

/// A block that `latest_index` finds lies within `blocks` and has that hash.
proof fn lemma_latest_index_in_range(blocks: Seq<(BlockHash, Snapshot)>, hash: BlockHash)
    ensures
        match latest_index(blocks, hash) {
            Some(i) => 0 <= i < blocks.len() && blocks[i].0 == hash,
            None => true,
        },
    decreases blocks.len(),
{
    if blocks.len() > 0 && blocks.last().0 != hash {
        lemma_latest_index_in_range(blocks.drop_last(), hash);
    }
}

/// The mathematical value of a [`Client`]: the live registry that writes go
/// to, and the finalized blocks, oldest first.
pub struct ClientView {
    pub live: RegistryView,
    pub blocks: Seq<(BlockHash, Snapshot)>,
}

impl ClientView {
    /// The snapshot that `at` refers to: the latest block when `at` is
    /// `None`, else the most recent block with that hash.
    pub open spec fn state_at(self, at: Option<BlockHash>) -> Option<Snapshot> {
        match at {
            None => if self.blocks.len() == 0 {
                None
            } else {
                Some(self.blocks.last().1)
            },
            Some(hash) => match latest_index(self.blocks, hash) {
                Some(i) => Some(self.blocks[i].1),
                None => None,
            },
        }
    }
}

struct Block {
    hash: BlockHash,
    state: Pallet,
}

/// The state that queries and writes go through: a live registry, and the
/// immutable snapshots that finalized blocks took of it.
pub struct Client {
    live: Pallet,
    blocks: Vec<Block>,
}

impl View for Client {
    type V = ClientView;

    closed spec fn view(&self) -> ClientView {
        ClientView {
            live: self.live@,
            blocks: self.blocks@.map_values(|b: Block| (b.hash, b.state@.names)),
        }
    }
}

impl Client {
    /// The live registry satisfies its invariant.
    pub open spec fn wf(&self) -> bool {
        self@.live.wf()
    }

    /// A client with an empty live registry under the given bound, and no
    /// finalized block.
    pub fn new(max_username_length: u32) -> (c: Client)
        ensures
            c.wf(),
            c@.live == Pallet::new_view(max_username_length),
            c@.blocks == Seq::<(BlockHash, Snapshot)>::empty(),
    {
        let c = Client { live: Pallet::new(max_username_length), blocks: Vec::new() };
        assert(c@.blocks =~= Seq::<(BlockHash, Snapshot)>::empty());
        c
    }

    /// The live registry.
    pub fn live(&self) -> (r: &Pallet)
        ensures
            r@ == self@.live,
    {
        &self.live
    }

    /// Applies a write to the live registry; finalized blocks stay as they
    /// are.
    pub fn set_username(&mut self, origin: Origin, username: Vec<u8>) -> (r: Result<
        (),
        DispatchError,
    >)
        requires
            old(self).wf(),
        ensures
            final(self).wf(),
            (r, final(self)@.live) == old(self)@.live.set_step(origin, username@),
            final(self)@.blocks == old(self)@.blocks,
    {
        let r = self.live.set_username(origin, username);
        assert(self@.blocks =~= old(self)@.blocks);
        r
    }

    /// Finalizes a block with hash `hash` that keeps the names of the live
    /// registry as they are now.
    pub fn import_block(&mut self, hash: BlockHash)
        ensures
            final(self)@.live == old(self)@.live,
            final(self)@.blocks == old(self)@.blocks.push((hash, old(self)@.live.names)),
    {
        let state = self.live.snapshot();
        self.blocks.push(Block { hash, state });
        assert(self@.blocks =~= old(self)@.blocks.push((hash, old(self)@.live.names)));
    }

    /// The hash of the latest finalized block, if there is one.
    pub fn best_hash(&self) -> (r: Option<BlockHash>)
        ensures
            self@.blocks.len() == 0 ==> r == None::<BlockHash>,
            self@.blocks.len() > 0 ==> r == Some(self@.blocks.last().0),
    {
        let n = self.blocks.len();
        if n == 0 {
            None
        } else {
            Some(self.blocks[n - 1].hash)
        }
    }

    /// The position of the most recent block with hash `hash`.
    fn find_block(&self, hash: BlockHash) -> (r: Option<usize>)
        ensures
            match r {
                Some(i) => latest_index(self@.blocks, hash) == Some(i as int),
                None => latest_index(self@.blocks, hash) == None::<int>,
            },
    {
        let ghost blocks = self@.blocks;
        let mut i: usize = self.blocks.len();
        assert(blocks.subrange(0, i as int) =~= blocks);
        while i > 0
            invariant
                i <= self.blocks@.len(),
                blocks == self@.blocks,
                latest_index(blocks, hash) == latest_index(blocks.subrange(0, i as int), hash),
            decreases i,
        {
            let ghost prefix = blocks.subrange(0, i as int);
            assert(prefix.drop_last() =~= blocks.subrange(0, i - 1));
            if self.blocks[i - 1].hash == hash {
                return Some(i - 1);
            }
            i = i - 1;
        }
        None
    }

    /// The registry state that `at` refers to: the latest finalized block
    /// when `at` is `None`, else the most recent block with that hash.
    pub fn state_at(&self, at: Option<BlockHash>) -> (r: Option<&Pallet>)
        ensures
            match r {
                Some(p) => self@.state_at(at) == Some(p@.names),
                None => self@.state_at(at) == None::<Snapshot>,
            },
    {
        let found = match at {
            None => if self.blocks.len() == 0 {
                None
            } else {
                Some(self.blocks.len() - 1)
            },
            Some(hash) => self.find_block(hash),
        };
        proof {
            if let Some(hash) = at {
                lemma_latest_index_in_range(self@.blocks, hash);
            }
        }
        match found {
            Some(i) => Some(&self.blocks[i].state),
            None => None,
        }
    }
}

} // verus!
