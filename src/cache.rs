//! The GPU cache of per-picture data and the cache of render tasks reused across frames.
use vstd::prelude::*;
use crate::geom::IntSize;
use crate::graph::RenderTaskId;
use crate::picture::PictureCacheKey;

verus! {

/// Four values uploaded together to the GPU.
#[derive(Clone, Copy, Debug, PartialEq, Eq, Structural)]
pub struct GpuBlockData(pub i64, pub i64, pub i64, pub i64);

/// Where an item's data sits in the GPU cache, once it has been written there.
#[derive(Clone, Copy, Debug, PartialEq, Eq, Structural)]
pub struct GpuCacheHandle {
    pub location: Option<usize>,
}

impl GpuCacheHandle {
    /// A handle with no data behind it.
    pub fn new() -> (r: GpuCacheHandle)
        ensures
            r.location is None,
    {
        GpuCacheHandle { location: None }
    }
}

/// The GPU cache: one slot of blocks per handle that has been written.
pub struct GpuCache {
    pub slots: Vec<Vec<GpuBlockData>>,
}

/// True when the data behind `h` is up to date, so that a request writes nothing.
pub open spec fn handle_is_current(h: GpuCacheHandle, slot_count: nat) -> bool {
    h.location matches Some(i) && i < slot_count
}

impl GpuCache {
    pub fn new() -> (r: GpuCache)
        ensures
            r.slots@.len() == 0,
    {
        GpuCache { slots: Vec::new() }
    }

    /// Marks the data behind `handle` as stale, so that the next request rewrites it.
    pub fn invalidate(&self, handle: &mut GpuCacheHandle)
        ensures
            final(handle).location is None,
    {
        handle.location = None;
    }

    /// The slot to write `handle`'s data to, or `None` when that data is up to date.
    pub fn request(&mut self, handle: &mut GpuCacheHandle) -> (r: Option<usize>)
        ensures
            handle_is_current(*old(handle), old(self).slots@.len()) ==> {
                &&& r is None
                &&& *final(handle) == *old(handle)
                &&& final(self).slots@ == old(self).slots@
            },
            !handle_is_current(*old(handle), old(self).slots@.len()) ==> {
                &&& r matches Some(i) && i == old(self).slots@.len()
                &&& final(handle).location == r
                &&& final(self).slots@.len() == old(self).slots@.len() + 1
                &&& final(self).slots@.drop_last() == old(self).slots@
                &&& final(self).slots@.last()@.len() == 0
            },
    {
        if let Some(i) = handle.location {
            if i < self.slots.len() {
                return None;
            }
        }
        let i = self.slots.len();
        self.slots.push(Vec::new());
        assert(self.slots@.drop_last() =~= old(self).slots@);
        handle.location = Some(i);
        Some(i)
    }

    /// Stores `blocks` in the slot `slot`.
    pub fn write(&mut self, slot: usize, blocks: Vec<GpuBlockData>)
        requires
            slot < old(self).slots@.len(),
        ensures
            final(self).slots@ == old(self).slots@.update(slot as int, blocks),
    {
        self.slots.set(slot, blocks);
    }
}

/// Identifies a cached render task's output.
#[derive(Clone, Copy, Debug, PartialEq, Eq, Structural)]
pub struct RenderTaskCacheKey {
    pub size: IntSize,
    pub kind: PictureCacheKey,
}

/// Names an entry of the render-task cache.
#[derive(Clone, Copy, Debug, PartialEq, Eq, Structural)]
pub struct RenderTaskCacheEntryHandle(pub usize);

/// The outputs of render tasks kept across frames, by key.
pub struct RenderTaskCache {
    pub entries: Vec<(RenderTaskCacheKey, RenderTaskId)>,
}

/// The index of the last entry under `key`.
pub open spec fn lookup_entry(entries: Seq<(RenderTaskCacheKey, RenderTaskId)>, key: RenderTaskCacheKey) -> Option<usize>
    decreases entries.len(),
{
    if entries.len() == 0 {
        None
    } else if entries.last().0 == key {
        Some((entries.len() - 1) as usize)
    } else {
        lookup_entry(entries.drop_last(), key)
    }
}

impl RenderTaskCache {
    pub fn new() -> (r: RenderTaskCache)
        ensures
            r.entries@.len() == 0,
    {
        RenderTaskCache { entries: Vec::new() }
    }

    /// The entry cached under `key`, if any.
    pub fn lookup(&self, key: &RenderTaskCacheKey) -> (r: Option<RenderTaskCacheEntryHandle>)
        ensures
            r == match lookup_entry(self.entries@, *key) {
                Some(i) => Some(RenderTaskCacheEntryHandle(i)),
                None => None,
            },
    {
        let mut i: usize = self.entries.len();
        assert(self.entries@.take(i as int) =~= self.entries@);
        while i > 0
            invariant
                i <= self.entries@.len(),
                lookup_entry(self.entries@, *key) == lookup_entry(self.entries@.take(i as int), *key),
            decreases i,
        {
            assert(self.entries@.take(i as int).drop_last() =~= self.entries@.take(i - 1));
            if self.entries[i - 1].0 == *key {
                return Some(RenderTaskCacheEntryHandle(i - 1));
            }
            i = i - 1;
        }
        assert(self.entries@.take(0).len() == 0);
        None
    }

    /// Caches the output of `task_id` under `key`.
    pub fn insert(&mut self, key: RenderTaskCacheKey, task_id: RenderTaskId) -> (r: RenderTaskCacheEntryHandle)
        ensures
            r == RenderTaskCacheEntryHandle(old(self).entries@.len() as usize),
            final(self).entries@ == old(self).entries@.push((key, task_id)),
    {
        let i = self.entries.len();
        self.entries.push((key, task_id));
        RenderTaskCacheEntryHandle(i)
    }
}

} // verus!
