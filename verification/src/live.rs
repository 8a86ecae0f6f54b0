//! The window of live blocks: for each recent height, the block that
//! currently counts as canonical there, kept while the height is within the
//! confirmation depth of the chain's head and so may still be reorganized.

use vstd::prelude::*;
use crate::types::{FirehoseBlock, FirehoseBlockView};
use crate::u256::U256;
use crate::vecs::reversed;

verus! {

/// One candidate block at a height.
#[derive(Debug, Clone, PartialEq, Eq)]
pub struct BlockInfo {
    /// The block's identifier.
    pub indep_hash: String,
    /// The chain work up to and including the block.
    pub cumulative_diff: U256,
}

/// What a [`BlockInfo`] holds.
pub struct BlockInfoView {
    pub indep_hash: Seq<char>,
    pub cumulative_diff: nat,
}

impl View for BlockInfo {
    type V = BlockInfoView;

    open spec fn view(&self) -> BlockInfoView {
        BlockInfoView { indep_hash: self.indep_hash@, cumulative_diff: self.cumulative_diff@ }
    }
}

/// What observing a block did to the window.
#[derive(Debug, Clone, Copy, PartialEq, Eq, Structural)]
pub enum Observation {
    /// The height is final: nothing is kept for it.
    Final,
    /// The height had no block yet: this one is recorded.
    Recorded,
    /// The block is the one already recorded.
    Known,
    /// A fork: another block was recorded, and this one has strictly more
    /// work, so it takes the other's place.
    Replaced,
    /// A fork: another block is recorded, and this one does not have
    /// strictly more work, so the recorded one stays.
    Orphaned,
}

/// Whether a height is still live: within `confirms` of the head `latest`.
pub open spec fn is_live(height: u64, confirms: u64, latest: u64) -> bool {
    height + confirms > latest
}

/// The candidate that a block is.
pub open spec fn info_of(b: FirehoseBlockView) -> BlockInfoView {
    BlockInfoView { indep_hash: b.hash, cumulative_diff: b.cumulative_diff }
}

/// What observing `info` at `height` does to a window, and to its content:
/// a final height is ignored; the first block at a height is recorded; a
/// block with another identifier than the recorded one takes its place
/// only with strictly more work.
pub open spec fn observation(
    m: Map<u64, BlockInfoView>,
    confirms: u64,
    latest: u64,
    height: u64,
    info: BlockInfoView,
) -> Observation {
    if !is_live(height, confirms, latest) {
        Observation::Final
    } else if !m.contains_key(height) {
        Observation::Recorded
    } else if m[height].indep_hash == info.indep_hash {
        Observation::Known
    } else if info.cumulative_diff > m[height].cumulative_diff {
        Observation::Replaced
    } else {
        Observation::Orphaned
    }
}

/// The content of a window after `info` was observed at `height`.
pub open spec fn observed(
    m: Map<u64, BlockInfoView>,
    confirms: u64,
    latest: u64,
    height: u64,
    info: BlockInfoView,
) -> Map<u64, BlockInfoView> {
    match observation(m, confirms, latest, height, info) {
        Observation::Recorded => m.insert(height, info),
        Observation::Replaced => m.insert(height, info),
        _ => m,
    }
}

/// Whether observing `info` at `height` meets another block there.
pub open spec fn is_fork(
    m: Map<u64, BlockInfoView>,
    confirms: u64,
    latest: u64,
    height: u64,
    info: BlockInfoView,
) -> bool {
    observation(m, confirms, latest, height, info) == Observation::Replaced || observation(
        m,
        confirms,
        latest,
        height,
        info,
    ) == Observation::Orphaned
}

/// The content of a window after the blocks were observed in order.
pub open spec fn observed_all(
    m: Map<u64, BlockInfoView>,
    confirms: u64,
    latest: u64,
    blocks: Seq<FirehoseBlockView>,
) -> Map<u64, BlockInfoView>
    decreases blocks.len(),
{
    if blocks.len() == 0 {
        m
    } else {
        observed(
            observed_all(m, confirms, latest, blocks.drop_last()),
            confirms,
            latest,
            blocks.last().height,
            info_of(blocks.last()),
        )
    }
}

/// The height of the last of the blocks that met another block at its
/// height, if any did.
pub open spec fn last_fork(
    m: Map<u64, BlockInfoView>,
    confirms: u64,
    latest: u64,
    blocks: Seq<FirehoseBlockView>,
) -> Option<u64>
    decreases blocks.len(),
{
    if blocks.len() == 0 {
        None
    } else if is_fork(
        observed_all(m, confirms, latest, blocks.drop_last()),
        confirms,
        latest,
        blocks.last().height,
        info_of(blocks.last()),
    ) {
        Some(blocks.last().height)
    } else {
        last_fork(m, confirms, latest, blocks.drop_last())
    }
}

/// The content of a window without the heights that are final under the
/// head `latest`.
pub open spec fn pruned(m: Map<u64, BlockInfoView>, confirms: u64, latest: u64) -> Map<
    u64,
    BlockInfoView,
> {
    Map::new(|h: u64| m.contains_key(h) && is_live(h, confirms, latest), |h: u64| m[h])
}

/// Whether every height of a window is live.
pub open spec fn all_live(m: Map<u64, BlockInfoView>, confirms: u64, latest: u64) -> bool {
    forall|h: u64| m.contains_key(h) ==> is_live(h, confirms, latest)
}

/// The map that a list of entries stands for; a later entry at a height
/// takes the place of an earlier one.
spec fn entries_map(s: Seq<(u64, BlockInfo)>) -> Map<u64, BlockInfoView>
    decreases s.len(),
{
    if s.len() == 0 {
        Map::empty()
    } else {
        entries_map(s.drop_last()).insert(s.last().0, s.last().1@)
    }
}

/// Whether no two entries have the same height.
spec fn distinct_heights(s: Seq<(u64, BlockInfo)>) -> bool {
    forall|i: int, j: int| 0 <= i < j < s.len() ==> (#[trigger] s[i]).0 != (#[trigger] s[j]).0
}

/// A height is in the map exactly where an entry has it, and then the map
/// holds what that entry holds.
proof fn entries_map_lookup(s: Seq<(u64, BlockInfo)>, h: u64)
    requires
        distinct_heights(s),
    ensures
        entries_map(s).contains_key(h) <==> exists|i: int| 0 <= i < s.len() && (#[trigger] s[i]).0
            == h,
        forall|i: int|
            0 <= i < s.len() && (#[trigger] s[i]).0 == h ==> entries_map(s)[h] == s[i].1@,
    decreases s.len(),
{
    if s.len() > 0 {
        let t = s.drop_last();
        assert forall|i: int, j: int| 0 <= i < j < t.len() implies (#[trigger] t[i]).0 != (
        #[trigger] t[j]).0 by {
            assert(t[i] == s[i] && t[j] == s[j]);
        }
        entries_map_lookup(t, h);
        if s.last().0 == h {
            assert(s[s.len() - 1].0 == h);
            assert forall|i: int| 0 <= i < s.len() && (#[trigger] s[i]).0 == h implies i == s.len()
                - 1 by {
                if i < s.len() - 1 {
                    assert(s[i].0 != s[s.len() - 1].0);
                }
            }
        } else {
            if entries_map(t).contains_key(h) {
                let i = choose|i: int| 0 <= i < t.len() && (#[trigger] t[i]).0 == h;
                assert(s[i] == t[i]);
            }
            if exists|i: int| 0 <= i < s.len() && (#[trigger] s[i]).0 == h {
                let i = choose|i: int| 0 <= i < s.len() && (#[trigger] s[i]).0 == h;
                assert(t[i] == s[i]);
            }
            assert forall|i: int| 0 <= i < s.len() && (#[trigger] s[i]).0 == h implies entries_map(
                s,
            )[h] == s[i].1@ by {
                assert(t[i] == s[i]);
            }
        }
    }
}

/// Putting a new block in the place of an entry is an insertion at the
/// entry's height.
proof fn entries_map_update(s: Seq<(u64, BlockInfo)>, i: int, info: BlockInfo)
    requires
        distinct_heights(s),
        0 <= i < s.len(),
    ensures
        entries_map(s.update(i, (s[i].0, info))) == entries_map(s).insert(s[i].0, info@),
        distinct_heights(s.update(i, (s[i].0, info))),
    decreases s.len(),
{
    let u = s.update(i, (s[i].0, info));
    assert forall|a: int, b: int| 0 <= a < b < u.len() implies (#[trigger] u[a]).0 != (
    #[trigger] u[b]).0 by {
        assert(s[a].0 != s[b].0);
    }
    let t = s.drop_last();
    if i == s.len() - 1 {
        assert(u.drop_last() =~= t);
        assert(entries_map(u) =~= entries_map(s).insert(s[i].0, info@));
    } else {
        assert forall|a: int, b: int| 0 <= a < b < t.len() implies (#[trigger] t[a]).0 != (
        #[trigger] t[b]).0 by {
            assert(t[a] == s[a] && t[b] == s[b]);
        }
        entries_map_update(t, i, info);
        assert(u.drop_last() =~= t.update(i, (t[i].0, info)));
        assert(u.last() == s.last());
        assert(s[i].0 != s[s.len() - 1].0);
        assert(entries_map(u) =~= entries_map(s).insert(s[i].0, info@));
    }
}

/// The window of live blocks, with the confirmation depth and the head
/// estimate that decide which heights are live.
#[derive(Debug)]
pub struct LiveWindow {
    entries: Vec<(u64, BlockInfo)>,
    confirms: u64,
    latest: u64,
}

impl View for LiveWindow {
    type V = Map<u64, BlockInfoView>;

    /// The recorded block of each live height.
    closed spec fn view(&self) -> Map<u64, BlockInfoView> {
        entries_map(self.entries@)
    }
}

impl LiveWindow {
    #[verifier::type_invariant]
    spec fn inv(self) -> bool {
        &&& distinct_heights(self.entries@)
        &&& all_live(entries_map(self.entries@), self.confirms, self.latest)
    }

    /// The confirmation depth.
    pub closed spec fn spec_confirms(self) -> u64 {
        self.confirms
    }

    /// The head estimate.
    pub closed spec fn spec_latest(self) -> u64 {
        self.latest
    }

    /// An empty window under the head estimate 0.
    pub fn new(confirms: u64) -> (w: LiveWindow)
        ensures
            w@ == Map::<u64, BlockInfoView>::empty(),
            w.spec_confirms() == confirms,
            w.spec_latest() == 0,
    {
        LiveWindow { entries: Vec::new(), confirms, latest: 0 }
    }

    /// The confirmation depth.
    pub fn confirms(&self) -> (r: u64)
        ensures
            r == self.spec_confirms(),
    {
        self.confirms
    }

    /// The head estimate.
    pub fn latest(&self) -> (r: u64)
        ensures
            r == self.spec_latest(),
    {
        self.latest
    }

    /// Whether `height` is live under the window's depth and head.
    pub fn is_live(&self, height: u64) -> (r: bool)
        ensures
            r == is_live(height, self.spec_confirms(), self.spec_latest()),
    {
        height as u128 + self.confirms as u128 > self.latest as u128
    }

    /// The index of the entry at `height`, if there is one.
    fn position(&self, height: u64) -> (r: Option<usize>)
        ensures
            r is Some <==> self@.contains_key(height),
            r matches Some(i) ==> i < self.entries@.len() && self.entries@[i as int].0 == height
                && self@[height] == self.entries@[i as int].1@,
    {
        let mut i: usize = 0;
        while i < self.entries.len()
            invariant
                i <= self.entries@.len(),
                forall|j: int| 0 <= j < i ==> (#[trigger] self.entries@[j]).0 != height,
            decreases self.entries@.len() - i,
        {
            if self.entries[i].0 == height {
                proof {
                    use_type_invariant(self);
                    entries_map_lookup(self.entries@, height);
                }
                return Some(i);
            }
            i += 1;
        }
        proof {
            use_type_invariant(self);
            entries_map_lookup(self.entries@, height);
        }
        None
    }

    /// The number of heights in the window.
    pub fn len(&self) -> (r: usize)
        ensures
            self@.dom().finite(),
            r == self@.dom().len(),
    {
        proof {
            use_type_invariant(self);
            entries_map_len(self.entries@);
        }
        self.entries.len()
    }

    /// Whether the window holds a block at `height`.
    pub fn contains(&self, height: u64) -> (r: bool)
        ensures
            r == self@.contains_key(height),
    {
        self.position(height).is_some()
    }

    /// The block recorded at `height`, if there is one.
    pub fn get(&self, height: u64) -> (r: Option<&BlockInfo>)
        ensures
            r is Some <==> self@.contains_key(height),
            r matches Some(info) ==> self@[height] == info@,
    {
        match self.position(height) {
            None => None,
            Some(i) => Some(&self.entries[i].1),
        }
    }

    /// Observes a block at `height`: records it where the height is live
    /// and either has no block yet or has one with strictly less work and
    /// another identifier.
    pub fn observe(self, height: u64, info: BlockInfo) -> (r: (LiveWindow, Observation))
        ensures
            r.0@ == observed(self@, self.spec_confirms(), self.spec_latest(), height, info@),
            r.1 == observation(self@, self.spec_confirms(), self.spec_latest(), height, info@),
            r.0.spec_confirms() == self.spec_confirms(),
            r.0.spec_latest() == self.spec_latest(),
            all_live(r.0@, self.spec_confirms(), self.spec_latest()),
    {
        proof {
            use_type_invariant(&self);
        }
        if !self.is_live(height) {
            return (self, Observation::Final);
        }
        match self.position(height) {
            None => {
                let LiveWindow { entries, confirms, latest } = self;
                let ghost before = entries@;
                let mut entries = entries;
                proof {
                    entries_map_push(before, height, info);
                }
                entries.push((height, info));
                (LiveWindow { entries, confirms, latest }, Observation::Recorded)
            },
            Some(i) => {
                if self.entries[i].1.indep_hash == info.indep_hash {
                    (self, Observation::Known)
                } else if info.cumulative_diff.gt(&self.entries[i].1.cumulative_diff) {
                    let LiveWindow { entries, confirms, latest } = self;
                    let ghost before = entries@;
                    let mut entries = entries;
                    proof {
                        entries_map_update(before, i as int, info);
                    }
                    entries.set(i, (height, info));
                    (LiveWindow { entries, confirms, latest }, Observation::Replaced)
                } else {
                    (self, Observation::Orphaned)
                }
            },
        }
    }

    /// Observes the blocks in order. Gives the height of the last block
    /// that met another block at its height, if any did.
    pub fn update(self, blocks: &Vec<FirehoseBlock>) -> (r: (LiveWindow, Option<u64>))
        ensures
            r.0@ == observed_all(
                self@,
                self.spec_confirms(),
                self.spec_latest(),
                crate::types::block_views(blocks@),
            ),
            r.1 == last_fork(
                self@,
                self.spec_confirms(),
                self.spec_latest(),
                crate::types::block_views(blocks@),
            ),
            r.0.spec_confirms() == self.spec_confirms(),
            r.0.spec_latest() == self.spec_latest(),
            all_live(r.0@, self.spec_confirms(), self.spec_latest()),
    {
        proof {
            use_type_invariant(&self);
        }
        let ghost views = crate::types::block_views(blocks@);
        let ghost start = self@;
        let ghost confirms = self.spec_confirms();
        let ghost latest = self.spec_latest();
        let mut window = self;
        let mut fork: Option<u64> = None;
        let mut i: usize = 0;
        while i < blocks.len()
            invariant
                i <= blocks@.len(),
                views == crate::types::block_views(blocks@),
                window.spec_confirms() == confirms,
                window.spec_latest() == latest,
                window@ == observed_all(start, confirms, latest, views.take(i as int)),
                all_live(window@, confirms, latest),
                fork == last_fork(start, confirms, latest, views.take(i as int)),
            decreases blocks@.len() - i,
        {
            let b = &blocks[i];
            let info = BlockInfo {
                indep_hash: b.hash.clone(),
                cumulative_diff: b.cumulative_diff,
            };
            proof {
                let t = views.take(i + 1);
                assert(t.drop_last() =~= views.take(i as int));
                assert(t.last() == b@);
                assert(info@ == info_of(b@));
            }
            let (next, seen) = window.observe(b.height, info);
            window = next;
            match seen {
                Observation::Replaced => {
                    fork = Some(b.height);
                },
                Observation::Orphaned => {
                    fork = Some(b.height);
                },
                _ => {},
            }
            i += 1;
        }
        proof {
            assert(views.take(i as int) =~= views);
        }
        (window, fork)
    }

    /// Takes `latest` as the head estimate, whether it is above or below
    /// the one before, and drops every height that is final under it.
    pub fn advance(self, latest: u64) -> (w: LiveWindow)
        ensures
            w@ == pruned(self@, self.spec_confirms(), latest),
            w.spec_confirms() == self.spec_confirms(),
            w.spec_latest() == latest,
            all_live(w@, self.spec_confirms(), latest),
    {
        proof {
            use_type_invariant(&self);
        }
        let LiveWindow { entries, confirms, latest: _ } = self;
        let ghost all = entries@;
        let n = entries.len();
        let mut rest = reversed(entries);
        let mut kept: Vec<(u64, BlockInfo)> = Vec::new();
        let mut i: usize = 0;
        while i < n
            invariant
                i <= n,
                n == all.len(),
                rest@.len() == n - i,
                forall|j: int| 0 <= j < n - i ==> rest@[j] == all[n - 1 - j],
                distinct_heights(all),
                distinct_heights(kept@),
                entries_map(kept@) == pruned(entries_map(all.take(i as int)), confirms, latest),
            decreases n - i,
        {
            let entry = rest.pop().unwrap();
            proof {
                assert(entry == all[i as int]);
                let t = all.take(i + 1);
                assert(t.drop_last() =~= all.take(i as int));
                assert(t.last() == entry);
                entries_map_prefix(all, i as int);
                pruned_insert(
                    entries_map(all.take(i as int)),
                    confirms,
                    latest,
                    entry.0,
                    entry.1@,
                );
                if is_live(entry.0, confirms, latest) {
                    entries_map_push(kept@, entry.0, entry.1);
                }
            }
            if entry.0 as u128 + confirms as u128 > latest as u128 {
                kept.push(entry);
            }
            i += 1;
        }
        proof {
            assert(all.take(i as int) =~= all);
        }
        LiveWindow { entries: kept, confirms, latest }
    }
}

/// A block at a height that no entry has yet can be added at the end.
proof fn entries_map_push(s: Seq<(u64, BlockInfo)>, h: u64, info: BlockInfo)
    requires
        distinct_heights(s),
        !entries_map(s).contains_key(h),
    ensures
        distinct_heights(s.push((h, info))),
        entries_map(s.push((h, info))) == entries_map(s).insert(h, info@),
{
    let u = s.push((h, info));
    assert(u.drop_last() =~= s);
    entries_map_lookup(s, h);
    assert forall|i: int, j: int| 0 <= i < j < u.len() implies (#[trigger] u[i]).0 != (
    #[trigger] u[j]).0 by {
        if j < s.len() {
            assert(s[i].0 != s[j].0);
        } else {
            assert(s[i].0 != h);
        }
    }
}

/// The height of an entry is not among the entries before it.
proof fn entries_map_prefix(s: Seq<(u64, BlockInfo)>, i: int)
    requires
        distinct_heights(s),
        0 <= i < s.len(),
    ensures
        !entries_map(s.take(i)).contains_key(s[i].0),
{
    let t = s.take(i);
    assert forall|a: int, b: int| 0 <= a < b < t.len() implies (#[trigger] t[a]).0 != (
    #[trigger] t[b]).0 by {
        assert(t[a] == s[a] && t[b] == s[b]);
    }
    entries_map_lookup(t, s[i].0);
    if entries_map(t).contains_key(s[i].0) {
        let k = choose|k: int| 0 <= k < t.len() && (#[trigger] t[k]).0 == s[i].0;
        assert(t[k] == s[k]);
        assert(s[k].0 != s[i].0);
    }
}

/// Pruning after an insertion is an insertion after pruning where the
/// height is live, and pruning alone where it is not.
proof fn pruned_insert(
    m: Map<u64, BlockInfoView>,
    confirms: u64,
    latest: u64,
    h: u64,
    v: BlockInfoView,
)
    requires
        !m.contains_key(h),
    ensures
        pruned(m.insert(h, v), confirms, latest) == if is_live(h, confirms, latest) {
            pruned(m, confirms, latest).insert(h, v)
        } else {
            pruned(m, confirms, latest)
        },
        !pruned(m, confirms, latest).contains_key(h),
{
    if is_live(h, confirms, latest) {
        assert(pruned(m.insert(h, v), confirms, latest) =~= pruned(m, confirms, latest).insert(
            h,
            v,
        ));
    } else {
        assert(pruned(m.insert(h, v), confirms, latest) =~= pruned(m, confirms, latest));
    }
}

/// A list of entries with distinct heights stands for a map of as many
/// heights.
proof fn entries_map_len(s: Seq<(u64, BlockInfo)>)
    requires
        distinct_heights(s),
    ensures
        entries_map(s).dom().finite(),
        entries_map(s).dom().len() == s.len(),
    decreases s.len(),
{
    if s.len() > 0 {
        let t = s.drop_last();
        assert forall|i: int, j: int| 0 <= i < j < t.len() implies (#[trigger] t[i]).0 != (
        #[trigger] t[j]).0 by {
            assert(t[i] == s[i] && t[j] == s[j]);
        }
        entries_map_len(t);
        entries_map_lookup(t, s.last().0);
        if entries_map(t).contains_key(s.last().0) {
            let i = choose|i: int| 0 <= i < t.len() && (#[trigger] t[i]).0 == s.last().0;
            assert(s[i].0 != s[s.len() - 1].0);
        }
        assert(entries_map(s).dom() =~= entries_map(t).dom().insert(s.last().0));
    }
}

/// Where a height is live and holds a block, a block with another
/// identifier takes its place exactly where it has strictly more work.
pub proof fn more_work_wins(
    m: Map<u64, BlockInfoView>,
    confirms: u64,
    latest: u64,
    height: u64,
    candidate: BlockInfoView,
)
    requires
        is_live(height, confirms, latest),
        m.contains_key(height),
        m[height].indep_hash != candidate.indep_hash,
    ensures
        observed(m, confirms, latest, height, candidate).contains_key(height),
        candidate.cumulative_diff > m[height].cumulative_diff ==> observed(
            m,
            confirms,
            latest,
            height,
            candidate,
        )[height] == candidate,
        candidate.cumulative_diff <= m[height].cumulative_diff ==> observed(
            m,
            confirms,
            latest,
            height,
            candidate,
        )[height] == m[height],
{
}

/// Of two blocks with different identifiers and different work, observed
/// at a live height that held none, the one with more work is recorded,
/// in whichever order they come.
pub proof fn more_work_wins_in_any_order(
    m: Map<u64, BlockInfoView>,
    confirms: u64,
    latest: u64,
    height: u64,
    a: BlockInfoView,
    b: BlockInfoView,
)
    requires
        is_live(height, confirms, latest),
        !m.contains_key(height),
        a.indep_hash != b.indep_hash,
        a.cumulative_diff > b.cumulative_diff,
    ensures
        observed(observed(m, confirms, latest, height, a), confirms, latest, height, b)[height]
            == a,
        observed(observed(m, confirms, latest, height, b), confirms, latest, height, a)[height]
            == a,
{
}

/// Observing a block keeps every height of a window live.
pub proof fn observed_all_live(
    m: Map<u64, BlockInfoView>,
    confirms: u64,
    latest: u64,
    height: u64,
    info: BlockInfoView,
)
    requires
        all_live(m, confirms, latest),
    ensures
        all_live(observed(m, confirms, latest, height, info), confirms, latest),
{
}

/// After pruning under a head, every height of a window is live under it.
pub proof fn pruned_all_live(m: Map<u64, BlockInfoView>, confirms: u64, latest: u64)
    ensures
        all_live(pruned(m, confirms, latest), confirms, latest),
{
}

} // verus!
