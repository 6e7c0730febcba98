//! An in-memory store of compact blocks keyed by height, holding the blocks of a
//! range between their download and their scan.
use vstd::prelude::*;
use crate::error::Error;

verus! {

/// A compact block as the daemon serves it: its height, its hash, its parent's
/// hash, and its encoded body.
#[derive(Debug, PartialEq, Eq)]
pub struct CompactBlock {
    pub height: u32,
    pub hash: Vec<u8>,
    pub prev_hash: Vec<u8>,
    pub data: Vec<u8>,
}

/// The blocks of `s` by height; a later block replaces an earlier one of the same height.
pub open spec fn blocks_by_height(s: Seq<CompactBlock>) -> Map<u32, CompactBlock>
    decreases s.len(),
{
    if s.len() == 0 {
        Map::empty()
    } else {
        blocks_by_height(s.drop_last()).insert(s.last().height, s.last())
    }
}

/// The heights in `[lo, hi)`.
pub open spec fn heights_in(lo: int, hi: int) -> Set<u32> {
    Set::new(|h: u32| lo <= h < hi)
}

pub struct BlockCache {
    blocks: Vec<CompactBlock>,
}

impl View for BlockCache {
    type V = Map<u32, CompactBlock>;

    closed spec fn view(&self) -> Map<u32, CompactBlock> {
        blocks_by_height(self.blocks@)
    }
}

proof fn lemma_by_height_append(a: Seq<CompactBlock>, b: Seq<CompactBlock>)
    ensures
        blocks_by_height(a + b) == blocks_by_height(a).union_prefer_right(blocks_by_height(b)),
    decreases b.len(),
{
    if b.len() == 0 {
        assert(a + b =~= a);
        assert(blocks_by_height(a).union_prefer_right(blocks_by_height(b)) =~= blocks_by_height(a));
    } else {
        assert((a + b).drop_last() =~= a + b.drop_last());
        lemma_by_height_append(a, b.drop_last());
        assert(blocks_by_height(a + b) =~= blocks_by_height(a).union_prefer_right(
            blocks_by_height(b),
        ));
    }
}

proof fn lemma_by_height_suffix_absent(s: Seq<CompactBlock>, i: int, h: u32)
    requires
        0 <= i <= s.len(),
        forall|j: int| i <= j < s.len() ==> (#[trigger] s[j]).height != h,
    ensures
        blocks_by_height(s).contains_key(h) == blocks_by_height(s.take(i)).contains_key(h),
        blocks_by_height(s).contains_key(h) ==> blocks_by_height(s)[h] == blocks_by_height(
            s.take(i),
        )[h],
    decreases s.len() - i,
{
    if i == s.len() {
        assert(s.take(i) =~= s);
    } else {
        assert(s.take(i + 1).drop_last() =~= s.take(i));
        lemma_by_height_suffix_absent(s, i + 1, h);
    }
}

/// Inserting the same blocks a second time leaves the cache as the first insert
/// left it, so a download that is repeated after an interruption changes nothing.
pub proof fn lemma_insert_idempotent(cache: Map<u32, CompactBlock>, blocks: Seq<CompactBlock>)
    ensures
        cache.union_prefer_right(blocks_by_height(blocks)).union_prefer_right(
            blocks_by_height(blocks),
        ) == cache.union_prefer_right(blocks_by_height(blocks)),
{
    let b = blocks_by_height(blocks);
    assert(cache.union_prefer_right(b).union_prefer_right(b) =~= cache.union_prefer_right(b));
}

impl BlockCache {
    pub fn new() -> (c: BlockCache)
        ensures
            c@ == Map::<u32, CompactBlock>::empty(),
    {
        BlockCache { blocks: Vec::new() }
    }

    /// Adds `blocks`, replacing what the cache held at their heights.
    pub fn insert_range(&mut self, blocks: Vec<CompactBlock>)
        ensures
            final(self)@ == old(self)@.union_prefer_right(blocks_by_height(blocks@)),
    {
        let ghost a = self.blocks@;
        let mut blocks = blocks;
        proof {
            lemma_by_height_append(a, blocks@);
        }
        self.blocks.append(&mut blocks);
    }

    /// Keeps only the blocks whose height is outside `[lo, hi)`.
    fn drop_heights(&mut self, lo: u32, hi: u64)
        ensures
            final(self)@ == old(self)@.remove_keys(heights_in(lo as int, hi as int)),
    {
        let ghost keys = heights_in(lo as int, hi as int);
        let ghost orig = self.blocks@;
        let mut left: Vec<CompactBlock> = Vec::new();
        std::mem::swap(&mut left, &mut self.blocks);
        let mut i: usize = 0;
        let n0 = left.len();
        assert(orig.skip(0) =~= orig);
        assert(blocks_by_height(self.blocks@) =~= blocks_by_height(orig.take(0)).remove_keys(keys));
        while left.len() > 0
            invariant
                i <= orig.len(),
                orig.len() == n0,
                left@ == orig.skip(i as int),
                keys == heights_in(lo as int, hi as int),
                blocks_by_height(self.blocks@) == blocks_by_height(orig.take(i as int)).remove_keys(
                    keys,
                ),
            decreases left.len(),
        {
            assert(orig.skip(i as int)[0] == orig[i as int]);
            let b = left.remove(0);
            assert(left@ =~= orig.skip(i + 1));
            assert(orig.take(i + 1).drop_last() =~= orig.take(i as int));
            let ghost m = blocks_by_height(orig.take(i as int));
            if lo <= b.height && (b.height as u64) < hi {
                assert(m.insert(b.height, b).remove_keys(keys) =~= m.remove_keys(keys));
            } else {
                let ghost prev = self.blocks@;
                self.blocks.push(b);
                assert(self.blocks@.drop_last() =~= prev);
                assert(m.insert(b.height, b).remove_keys(keys) =~= m.remove_keys(keys).insert(
                    b.height,
                    b,
                ));
            }
            i = i + 1;
        }
        assert(orig.take(i as int) =~= orig);
    }

    /// Drops the blocks whose height is in `[lo, hi)`.
    pub fn remove_range(&mut self, lo: u32, hi: u32)
        ensures
            final(self)@ == old(self)@.remove_keys(heights_in(lo as int, hi as int)),
    {
        self.drop_heights(lo, hi as u64);
    }

    /// Drops every block at height `h` or above.
    pub fn truncate_to_height(&mut self, h: u32)
        ensures
            final(self)@ == old(self)@.remove_keys(heights_in(h as int, u32::MAX as int + 1)),
    {
        self.drop_heights(h, u32::MAX as u64 + 1);
    }

    /// The block at height `h`; `BlockMissing(h)` when the cache has none.
    pub fn get(&self, h: u32) -> (r: Result<&CompactBlock, Error>)
        ensures
            self@.contains_key(h) ==> r is Ok && *r->Ok_0 == self@[h],
            !self@.contains_key(h) ==> r == Err::<&CompactBlock, Error>(Error::BlockMissing(h)),
    {
        let ghost s = self.blocks@;
        let mut i: usize = self.blocks.len();
        while i > 0
            invariant
                i <= s.len(),
                s == self.blocks@,
                forall|j: int| i <= j < s.len() ==> (#[trigger] s[j]).height != h,
            decreases i,
        {
            if self.blocks[i - 1].height == h {
                proof {
                    lemma_by_height_suffix_absent(s, i as int, h);
                    assert(s.take(i as int).drop_last() =~= s.take(i - 1));
                }
                return Ok(&self.blocks[i - 1]);
            }
            i = i - 1;
        }
        proof {
            lemma_by_height_suffix_absent(s, 0, h);
            assert(s.take(0) =~= Seq::<CompactBlock>::empty());
        }
        Err(Error::BlockMissing(h))
    }

    /// Whether the cache holds no block.
    pub fn is_empty(&self) -> (r: bool)
        ensures
            r == (self@ == Map::<u32, CompactBlock>::empty()),
    {
        if self.blocks.len() == 0 {
            assert(self.blocks@ =~= Seq::<CompactBlock>::empty());
            true
        } else {
            let ghost s = self.blocks@;
            assert(s.take(s.len() as int) =~= s);
            assert(s.take(s.len() as int).drop_last() =~= s.drop_last());
            assert(self@.contains_key(s.last().height));
            false
        }
    }
}

} // verus!
