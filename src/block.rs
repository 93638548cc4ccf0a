//! A block: an indexed record linked to its predecessor's digest, hashed over
//! its fields and mined by a bounded nonce search.

use vstd::prelude::*;
use crate::clock::unix_seconds_now;
use crate::digest::{digest_text, hex_digest, is_digest_shaped};
use crate::render::{decimal, push_decimal};

verus! {

/// Number of leading `'0'` digits that mining aims for by default.
pub const DIFFICULTY: usize = 2;

/// Number of nonce increments after which mining gives up.
pub const ATTEMPT_BOUND: u64 = 100;

/// The fields of a block as mathematical values.
pub struct BlockView {
    pub index: nat,
    pub previous_hash: Seq<char>,
    pub timestamp: nat,
    pub data: Seq<char>,
    pub nonce: nat,
    pub hash: Seq<char>,
}

/// The canonical text of a block's content: its fields written one after the
/// other, numbers in decimal.
pub open spec fn canonical(
    index: nat,
    previous_hash: Seq<char>,
    timestamp: nat,
    data: Seq<char>,
    nonce: nat,
) -> Seq<char> {
    decimal(index) + previous_hash + decimal(timestamp) + data + decimal(nonce)
}

/// The first `difficulty` characters of `hash` are all `'0'`.
pub open spec fn meets_difficulty(hash: Seq<char>, difficulty: nat) -> bool {
    &&& difficulty <= hash.len()
    &&& forall|k: int| 0 <= k < difficulty ==> #[trigger] hash[k] == '0'
}

impl BlockView {
    /// The digest of this block's content with `nonce` in place of its own.
    pub open spec fn digest_at(self, nonce: nat) -> Seq<char> {
        digest_text(canonical(self.index, self.previous_hash, self.timestamp, self.data, nonce))
    }

    /// Everything but the nonce and the hash agrees.
    pub open spec fn same_content(self, other: BlockView) -> bool {
        &&& self.index == other.index
        &&& self.previous_hash == other.previous_hash
        &&& self.timestamp == other.timestamp
        &&& self.data == other.data
    }

    /// The stored hash is the digest of the block's fields as they stand.
    pub open spec fn hash_is_current(self) -> bool {
        self.hash == self.digest_at(self.nonce)
    }

    /// A block as constructed: nonce zero and no hash yet.
    pub open spec fn is_fresh(self) -> bool {
        self.nonce == 0 && self.hash.len() == 0
    }
}

/// How a mining search ended.
#[derive(Clone, Copy, Debug, PartialEq, Eq, Structural)]
pub enum MineOutcome {
    /// A nonce whose digest meets the difficulty was found.
    Succeeded,
    /// The attempt bound was reached; the last digest computed is kept.
    Abandoned,
}

/// What mining from `before` with target `difficulty` leaves: the first nonce
/// from `before.nonce` on whose digest meets the target, else the nonce
/// `ATTEMPT_BOUND` steps on; the hash is the digest at that nonce.
pub open spec fn mined(before: BlockView, after: BlockView, difficulty: nat, outcome: MineOutcome) -> bool {
    &&& after.same_content(before)
    &&& before.nonce <= after.nonce <= before.nonce + ATTEMPT_BOUND
    &&& after.hash_is_current()
    &&& forall|n: nat| before.nonce <= n < after.nonce ==> !meets_difficulty(
        #[trigger] before.digest_at(n),
        difficulty,
    )
    &&& (outcome == MineOutcome::Succeeded <==> meets_difficulty(after.hash, difficulty))
    &&& (outcome == MineOutcome::Abandoned ==> after.nonce == before.nonce + ATTEMPT_BOUND)
}

/// The digest of a block is a function of its fields: two blocks that agree on
/// index, predecessor link, timestamp, payload and nonce have the same digest.
pub proof fn law_digest_determined_by_fields(a: BlockView, b: BlockView)
    requires
        a.same_content(b),
        a.nonce == b.nonce,
    ensures
        a.digest_at(a.nonce) == b.digest_at(b.nonce),
{
}

/// Mining a block whose nonce starts at zero, when it gives up, leaves the
/// nonce at `ATTEMPT_BOUND` and a hash that misses the target.
pub proof fn law_abandoned_at_bound(before: BlockView, after: BlockView, difficulty: nat)
    requires
        before.nonce == 0,
        mined(before, after, difficulty, MineOutcome::Abandoned),
    ensures
        after.nonce == ATTEMPT_BOUND,
        !meets_difficulty(after.hash, difficulty),
{
}

/// Mining that succeeds leaves a hash whose first `difficulty` characters are
/// all `'0'`.
pub proof fn law_success_meets_target(before: BlockView, after: BlockView, difficulty: nat)
    requires
        mined(before, after, difficulty, MineOutcome::Succeeded),
    ensures
        difficulty <= after.hash.len(),
        forall|k: int| 0 <= k < difficulty ==> after.hash[k] == '0',
{
}

/// A record of the ledger.
pub struct Block {
    index: u32,
    previous_hash: String,
    timestamp: u64,
    data: String,
    nonce: u64,
    hash: String,
}

impl View for Block {
    type V = BlockView;

    closed spec fn view(&self) -> BlockView {
        BlockView {
            index: self.index as nat,
            previous_hash: self.previous_hash@,
            timestamp: self.timestamp as nat,
            data: self.data@,
            nonce: self.nonce as nat,
            hash: self.hash@,
        }
    }
}

/// Whether the first `difficulty` characters of `hash` are all `'0'`.
pub fn has_leading_zeros(hash: &String, difficulty: usize) -> (r: bool)
    ensures
        r == meets_difficulty(hash@, difficulty as nat),
{
    let s = hash.as_str();
    if difficulty > s.unicode_len() {
        return false;
    }
    let mut k: usize = 0;
    while k < difficulty
        invariant
            s@ == hash@,
            difficulty <= s@.len(),
            k <= difficulty,
            forall|j: int| 0 <= j < k ==> #[trigger] s@[j] == '0',
        decreases difficulty - k,
    {
        if s.get_char(k) != '0' {
            return false;
        }
        k = k + 1;
    }
    true
}

impl Block {
    /// A block with the given fields, created at `timestamp`: nonce zero and no
    /// hash yet.
    pub fn with_timestamp(index: u32, previous_hash: String, data: String, timestamp: u64) -> (b: Block)
        ensures
            b@.index == index,
            b@.previous_hash == previous_hash@,
            b@.data == data@,
            b@.timestamp == timestamp,
            b@.is_fresh(),
    {
        Block { index, previous_hash, timestamp, data, nonce: 0, hash: String::new() }
    }

    /// A block with the given fields, stamped with the current time in seconds
    /// since the Unix epoch; `None` when the clock cannot be read.
    pub fn new(index: u32, previous_hash: String, data: String) -> (r: Option<Block>)
        ensures
            r matches Some(b) ==> {
                &&& b@.index == index
                &&& b@.previous_hash == previous_hash@
                &&& b@.data == data@
                &&& b@.is_fresh()
            },
    {
        match unix_seconds_now() {
            Some(timestamp) => Some(Block::with_timestamp(index, previous_hash, data, timestamp)),
            None => None,
        }
    }

    pub fn index(&self) -> (r: u32)
        ensures
            r == self@.index,
    {
        self.index
    }

    pub fn previous_hash(&self) -> (r: &str)
        ensures
            r@ == self@.previous_hash,
    {
        self.previous_hash.as_str()
    }

    pub fn timestamp(&self) -> (r: u64)
        ensures
            r == self@.timestamp,
    {
        self.timestamp
    }

    pub fn data(&self) -> (r: &str)
        ensures
            r@ == self@.data,
    {
        self.data.as_str()
    }

    pub fn nonce(&self) -> (r: u64)
        ensures
            r == self@.nonce,
    {
        self.nonce
    }

    pub fn hash(&self) -> (r: &str)
        ensures
            r@ == self@.hash,
    {
        self.hash.as_str()
    }

    /// The digest of the block's canonical content at its current nonce.
    pub fn calculate_hash(&self) -> (r: String)
        ensures
            r@ == self@.digest_at(self@.nonce),
            is_digest_shaped(r@),
    {
        let mut text = String::new();
        push_decimal(&mut text, self.index as u64);
        text.append(self.previous_hash.as_str());
        push_decimal(&mut text, self.timestamp);
        text.append(self.data.as_str());
        push_decimal(&mut text, self.nonce);
        proof {
            assert(text@ =~= canonical(
                self.index as nat,
                self.previous_hash@,
                self.timestamp as nat,
                self.data@,
                self.nonce as nat,
            ));
        }
        hex_digest(text.as_str())
    }

    /// Stores the digest of the current fields as the block's hash.
    pub fn rehash(&mut self)
        ensures
            final(self)@.same_content(old(self)@),
            final(self)@.nonce == old(self)@.nonce,
            final(self)@.hash_is_current(),
            is_digest_shaped(final(self)@.hash),
    {
        self.hash = self.calculate_hash();
    }

    /// Sets the predecessor link; the hash is left for mining to recompute.
    pub(crate) fn link_to(&mut self, previous_hash: String)
        ensures
            final(self)@ == (BlockView { previous_hash: previous_hash@, ..old(self)@ }),
    {
        self.previous_hash = previous_hash;
    }

    /// Searches nonces upward from the current one, hashing the block at each,
    /// until a digest meets `difficulty` or `ATTEMPT_BOUND` increments have been
    /// made; the last digest computed becomes the block's hash.
    pub fn mine(&mut self, difficulty: usize) -> (outcome: MineOutcome)
        requires
            old(self)@.nonce + ATTEMPT_BOUND <= u64::MAX,
        ensures
            mined(old(self)@, final(self)@, difficulty as nat, outcome),
            is_digest_shaped(final(self)@.hash),
    {
        let ghost start = self@;
        let mut attempts: u64 = 0;
        loop
            invariant
                start == old(self)@,
                self@.same_content(start),
                self@.nonce == start.nonce + attempts,
                attempts <= ATTEMPT_BOUND,
                start.nonce + ATTEMPT_BOUND <= u64::MAX,
                forall|n: nat| start.nonce <= n < self@.nonce ==> !meets_difficulty(
                    #[trigger] start.digest_at(n),
                    difficulty as nat,
                ),
            decreases ATTEMPT_BOUND - attempts,
        {
            self.rehash();
            if has_leading_zeros(&self.hash, difficulty) {
                return MineOutcome::Succeeded;
            }
            if attempts >= ATTEMPT_BOUND {
                return MineOutcome::Abandoned;
            }
            self.nonce = self.nonce + 1;
            attempts = attempts + 1;
        }
    }
}

} // verus!
