//! The ledger: an append-only sequence of blocks, each linked to the digest
//! of the one before it and mined as it is appended.

use vstd::prelude::*;
use crate::block::{mined, Block, BlockView, MineOutcome, ATTEMPT_BOUND, DIFFICULTY};
use crate::digest::is_digest_shaped;

verus! {

/// The payload of the first block.
pub open spec fn genesis_data() -> Seq<char> {
    "Genesis Block"@
}

/// The shape every ledger keeps: a genesis block at index zero with no
/// predecessor, indices counting up by one, each later block linked to the
/// hash of the one before it, and every hash the digest of its block's fields.
pub open spec fn linked(s: Seq<BlockView>) -> bool {
    &&& s.len() >= 1
    &&& s[0].previous_hash.len() == 0
    &&& forall|i: int| 0 <= i < s.len() ==> (#[trigger] s[i]).index == i
    &&& forall|i: int| 0 < i < s.len() ==> (#[trigger] s[i]).previous_hash == s[i - 1].hash
    &&& forall|i: int| 0 <= i < s.len() ==> (#[trigger] s[i]).hash_is_current()
    &&& forall|i: int| 0 <= i < s.len() ==> is_digest_shaped((#[trigger] s[i]).hash)
}

/// A candidate with its predecessor link set to `previous_hash`.
pub open spec fn relinked(candidate: BlockView, previous_hash: Seq<char>) -> BlockView {
    BlockView { previous_hash, ..candidate }
}

/// The ledger.
pub struct Blockchain {
    chain: Vec<Block>,
    difficulty: usize,
}

impl View for Blockchain {
    type V = Seq<BlockView>;

    closed spec fn view(&self) -> Seq<BlockView> {
        self.chain@.map_values(|b: Block| b@)
    }
}

impl Blockchain {
    /// The number of leading `'0'` digits that appended blocks are mined for.
    pub closed spec fn target(&self) -> nat {
        self.difficulty as nat
    }

    pub open spec fn well_formed(&self) -> bool {
        linked(self@)
    }

    /// A ledger whose one block is `genesis`, hashed once.
    fn from_genesis(genesis: Block, difficulty: usize) -> (c: Blockchain)
        requires
            genesis@.index == 0,
            genesis@.previous_hash.len() == 0,
        ensures
            c.well_formed(),
            c@.len() == 1,
            c@[0].same_content(genesis@),
            c@[0].nonce == genesis@.nonce,
            c.target() == difficulty,
    {
        let mut genesis = genesis;
        genesis.rehash();
        let chain = vec![genesis];
        let c = Blockchain { chain, difficulty };
        proof {
            assert(c@[0] == chain@[0]@);
        }
        c
    }

    /// A ledger holding a genesis block created at `timestamp`, mining later
    /// blocks for `difficulty` leading zeros.
    pub fn with_timestamp(timestamp: u64, difficulty: usize) -> (c: Blockchain)
        ensures
            c.well_formed(),
            c@.len() == 1,
            c@[0].index == 0,
            c@[0].previous_hash.len() == 0,
            c@[0].timestamp == timestamp,
            c@[0].data == genesis_data(),
            c@[0].nonce == 0,
            c.target() == difficulty,
    {
        let data = "Genesis Block".to_owned();
        let genesis = Block::with_timestamp(0, String::new(), data, timestamp);
        Blockchain::from_genesis(genesis, difficulty)
    }

    /// A ledger holding a genesis block stamped with the current time, mining
    /// for `DIFFICULTY` leading zeros; `None` when the clock cannot be read.
    pub fn new() -> (r: Option<Blockchain>)
        ensures
            r matches Some(c) ==> {
                &&& c.well_formed()
                &&& c@.len() == 1
                &&& c@[0].index == 0
                &&& c@[0].previous_hash.len() == 0
                &&& c@[0].data == genesis_data()
                &&& c@[0].nonce == 0
                &&& c.target() == DIFFICULTY
            },
    {
        match Block::new(0, String::new(), "Genesis Block".to_owned()) {
            Some(genesis) => Some(Blockchain::from_genesis(genesis, DIFFICULTY)),
            None => None,
        }
    }

    /// Links `new_block` to the hash of the last block, mines it, and appends
    /// it whether or not mining met the target.
    pub fn add_block(&mut self, new_block: Block) -> (outcome: MineOutcome)
        requires
            old(self).well_formed(),
            new_block@.index == old(self)@.len(),
            new_block@.nonce + ATTEMPT_BOUND <= u64::MAX,
            old(self)@.len() < usize::MAX,
        ensures
            final(self).well_formed(),
            final(self).target() == old(self).target(),
            final(self)@.len() == old(self)@.len() + 1,
            final(self)@.take(old(self)@.len() as int) == old(self)@,
            mined(
                relinked(new_block@, old(self)@.last().hash),
                final(self)@.last(),
                old(self).target(),
                outcome,
            ),
    {
        let n = self.chain.len();
        let previous_hash = self.chain[n - 1].hash().to_owned();
        let mut new_block = new_block;
        new_block.link_to(previous_hash);
        let outcome = new_block.mine(self.difficulty);
        let ghost mined_view = new_block@;
        self.chain.push(new_block);
        proof {
            assert(self@ =~= old(self)@.push(mined_view));
            assert(self@.take(n as int) =~= old(self)@);
        }
        outcome
    }

    /// The number of blocks, the genesis block included.
    pub fn get_total_blocks(&self) -> (r: usize)
        ensures
            r == self@.len(),
    {
        self.chain.len()
    }

    /// The block at position `i`.
    pub fn block(&self, i: usize) -> (b: &Block)
        requires
            i < self@.len(),
        ensures
            b@ == self@[i as int],
    {
        &self.chain[i]
    }

    pub fn difficulty(&self) -> (r: usize)
        ensures
            r == self.target(),
    {
        self.difficulty
    }
}

/// In a ledger, every block after the genesis block holds the hash of the
/// block before it as its predecessor link.
pub proof fn law_blocks_link_to_predecessor(c: &Blockchain, i: int)
    requires
        c.well_formed(),
        0 < i < c@.len(),
    ensures
        c@[i].previous_hash == c@[i - 1].hash,
{
}

/// The first block of a ledger has index zero and an empty predecessor link.
pub proof fn law_genesis_block(c: &Blockchain)
    requires
        c.well_formed(),
    ensures
        c@[0].index == 0,
        c@[0].previous_hash.len() == 0,
{
}

/// Every hash stored in a ledger is 64 lowercase hexadecimal characters.
pub proof fn law_stored_hashes_are_hex(c: &Blockchain, i: int)
    requires
        c.well_formed(),
        0 <= i < c@.len(),
    ensures
        is_digest_shaped(c@[i].hash),
{
}

} // verus!
