//! The single-slot buffer cache: the most recent (bounds, handle, texture)
//! triple, replaced in full whenever the requested bounds change.

use vstd::prelude::*;
use crate::allocator::AllocationError;
use crate::import::ImportError;

verus! {

/// A requested size in pixels.
#[derive(Clone, Copy, Debug, PartialEq, Eq, Structural)]
pub struct Bounds {
    pub width: u32,
    pub height: u32,
}

/// Work that the cache had done, in order.
#[derive(Clone, Copy, Debug, PartialEq, Eq, Structural)]
pub enum CacheEvent {
    /// The entry of these bounds was released, handle and texture.
    Release(Bounds),
    /// A buffer of these bounds was allocated.
    Allocate(Bounds),
    /// A buffer of these bounds was imported.
    Import(Bounds),
}

/// The cached buffer: its bounds, its cross-process handle and the texture
/// imported from it.
pub struct CacheEntry<H, T> {
    pub bounds: Bounds,
    pub handle: H,
    pub texture: T,
}

#[derive(Clone, Copy, Debug, PartialEq, Eq, Structural)]
pub enum CacheError {
    Allocation(AllocationError),
    Import(ImportError),
}

/// Caches the buffer of the most recently requested bounds; at most one entry.
pub struct BufferCache<H, T> {
    entry: Option<CacheEntry<H, T>>,
    log: Ghost<Seq<CacheEvent>>,
}

/// The cache as plain values: its entry and the log of the work done so far.
pub struct CacheView<H, T> {
    pub entry: Option<CacheEntry<H, T>>,
    pub log: Seq<CacheEvent>,
}

impl<H, T> View for BufferCache<H, T> {
    type V = CacheView<H, T>;

    closed spec fn view(&self) -> CacheView<H, T> {
        CacheView { entry: self.entry, log: self.log@ }
    }
}

/// The cached entry has exactly these bounds.
pub open spec fn hit<H, T>(v: CacheView<H, T>, b: Bounds) -> bool {
    v.entry is Some && v.entry->Some_0.bounds == b
}

/// The log once the current entry, if any, is released.
pub open spec fn after_eviction<H, T>(v: CacheView<H, T>) -> Seq<CacheEvent> {
    match v.entry {
        Some(e) => v.log.push(CacheEvent::Release(e.bounds)),
        None => v.log,
    }
}

/// What one `get_or_create(b)` does to the cache, `ok` telling whether it
/// succeeded. A hit changes nothing. A miss releases the current entry, then
/// allocates, then imports; the new entry stands only if both succeeded.
pub open spec fn transition<H, T>(v0: CacheView<H, T>, b: Bounds, v1: CacheView<H, T>, ok: bool) -> bool {
    if hit(v0, b) {
        v1 == v0 && ok
    } else {
        let allocated = after_eviction(v0).push(CacheEvent::Allocate(b));
        if ok {
            &&& v1.entry is Some
            &&& v1.entry->Some_0.bounds == b
            &&& v1.log == allocated.push(CacheEvent::Import(b))
        } else {
            &&& v1.entry is None
            &&& (v1.log == allocated || v1.log == allocated.push(CacheEvent::Import(b)))
        }
    }
}

/// Events of the log that satisfy `is`.
pub open spec fn count(log: Seq<CacheEvent>, is: spec_fn(CacheEvent) -> bool) -> nat
    decreases log.len(),
{
    if log.len() == 0 {
        0
    } else {
        count(log.drop_last(), is) + if is(log.last()) {
            1nat
        } else {
            0nat
        }
    }
}

/// Allocations in the log.
pub open spec fn allocations(log: Seq<CacheEvent>) -> nat {
    count(log, |e: CacheEvent| e is Allocate)
}

/// Imports in the log.
pub open spec fn imports(log: Seq<CacheEvent>) -> nat {
    count(log, |e: CacheEvent| e is Import)
}

/// Releases in the log.
pub open spec fn releases(log: Seq<CacheEvent>) -> nat {
    count(log, |e: CacheEvent| e is Release)
}

impl<H, T> BufferCache<H, T> {
    pub fn new() -> (r: Self)
        ensures
            r@.entry is None,
            r@.log == Seq::<CacheEvent>::empty(),
    {
        BufferCache { entry: None, log: Ghost(Seq::empty()) }
    }

    /// The cached entry.
    pub fn current(&self) -> (r: Option<&CacheEntry<H, T>>)
        ensures
            match r {
                Some(e) => self@.entry == Some(*e),
                None => self@.entry is None,
            },
    {
        match &self.entry {
            Some(e) => Some(e),
            None => None,
        }
    }

    /// The texture for `bounds`. On a hit it is the cached one and nothing
    /// else is done. On a miss the cached entry, if any, is handed to
    /// `release`, then `allocate` makes a buffer of `bounds` and `import`
    /// turns it into a texture; the new entry is cached when both succeed.
    pub fn get_or_create<A, I, R>(&mut self, bounds: Bounds, allocate: A, import: I, release: R) -> (r:
        Result<&T, CacheError>) where
        A: FnOnce(Bounds) -> Result<H, AllocationError>,
        I: FnOnce(&H) -> Result<T, ImportError>,
        R: FnOnce(CacheEntry<H, T>),

        requires
            allocate.requires((bounds,)),
            forall|h: &H| #[trigger] import.requires((h,)),
            forall|e: CacheEntry<H, T>| #[trigger] release.requires((e,)),
        ensures
            transition(old(self)@, bounds, final(self)@, r is Ok),
            match r {
                Ok(t) => final(self)@.entry is Some && *t == final(self)@.entry->Some_0.texture,
                Err(_) => true,
            },
            !hit(old(self)@, bounds) ==> match r {
                Ok(_) => {
                    let e = final(self)@.entry->Some_0;
                    &&& allocate.ensures((bounds,), Ok(e.handle))
                    &&& import.ensures((&e.handle,), Ok(e.texture))
                },
                Err(CacheError::Allocation(err)) => {
                    &&& allocate.ensures((bounds,), Err(err))
                    &&& final(self)@.log == after_eviction(old(self)@).push(CacheEvent::Allocate(bounds))
                },
                Err(CacheError::Import(err)) => {
                    &&& exists|h: H| allocate.ensures((bounds,), Ok(h)) && import.ensures((&h,), Err(err))
                    &&& final(self)@.log == after_eviction(old(self)@).push(CacheEvent::Allocate(bounds)).push(
                        CacheEvent::Import(bounds),
                    )
                },
            },
            !hit(old(self)@, bounds) && old(self)@.entry is Some ==> release.ensures(
                (old(self)@.entry->Some_0,),
                (),
            ),
    {
        let is_hit = match &self.entry {
            Some(e) => e.bounds == bounds,
            None => false,
        };
        if !is_hit {
            let old_entry = self.entry.take();
            if let Some(e) = old_entry {
                proof {
                    self.log@ = self.log@.push(CacheEvent::Release(e.bounds));
                }
                release(e);
            }
            proof {
                self.log@ = self.log@.push(CacheEvent::Allocate(bounds));
            }
            let handle = match allocate(bounds) {
                Ok(h) => h,
                Err(err) => return Err(CacheError::Allocation(err)),
            };
            proof {
                self.log@ = self.log@.push(CacheEvent::Import(bounds));
            }
            let texture = match import(&handle) {
                Ok(t) => t,
                Err(err) => return Err(CacheError::Import(err)),
            };
            self.entry = Some(CacheEntry { bounds, handle, texture });
        }
        Ok(&self.entry.as_ref().unwrap().texture)
    }
}

proof fn lemma_count_push(log: Seq<CacheEvent>, x: CacheEvent, is: spec_fn(CacheEvent) -> bool)
    ensures
        count(log.push(x), is) == count(log, is) + if is(x) {
            1nat
        } else {
            0nat
        },
{
    assert(log.push(x).drop_last() =~= log);
}

/// Asking twice for the same bounds does the work at most once. When the
/// first call succeeds, the second succeeds too, changes nothing and gives
/// the same texture; the two calls together allocated once and imported
/// once, or not at all when the bounds were already cached.
pub proof fn lemma_same_bounds_twice<H, T>(
    v0: CacheView<H, T>,
    v1: CacheView<H, T>,
    v2: CacheView<H, T>,
    b: Bounds,
    ok2: bool,
)
    requires
        transition(v0, b, v1, true),
        transition(v1, b, v2, ok2),
    ensures
        ok2,
        v2 == v1,
        v2.entry is Some && v2.entry->Some_0.bounds == b,
        v2.entry->Some_0.texture == v1.entry->Some_0.texture,
        allocations(v2.log) == allocations(v0.log) + if hit(v0, b) {
            0nat
        } else {
            1nat
        },
        imports(v2.log) == imports(v0.log) + if hit(v0, b) {
            0nat
        } else {
            1nat
        },
{
    let al = |e: CacheEvent| e is Allocate;
    let im = |e: CacheEvent| e is Import;
    if !hit(v0, b) {
        let ev = after_eviction(v0);
        match v0.entry {
            Some(e) => {
                lemma_count_push(v0.log, CacheEvent::Release(e.bounds), al);
                lemma_count_push(v0.log, CacheEvent::Release(e.bounds), im);
            },
            None => {},
        }
        lemma_count_push(ev, CacheEvent::Allocate(b), al);
        lemma_count_push(ev, CacheEvent::Allocate(b), im);
        lemma_count_push(ev.push(CacheEvent::Allocate(b)), CacheEvent::Import(b), al);
        lemma_count_push(ev.push(CacheEvent::Allocate(b)), CacheEvent::Import(b), im);
    }
}

/// A resize replaces the entry in full and in order: the old entry is
/// released first, then the new bounds are allocated and imported once each.
/// No moment holds entries of two sizes: the single slot has the new bounds
/// afterwards, and the release is logged before the allocation.
pub proof fn lemma_resize<H, T>(v0: CacheView<H, T>, v1: CacheView<H, T>, old_bounds: Bounds, b: Bounds)
    requires
        v0.entry is Some,
        v0.entry->Some_0.bounds == old_bounds,
        old_bounds != b,
        transition(v0, b, v1, true),
    ensures
        v1.log == v0.log + seq![
            CacheEvent::Release(old_bounds),
            CacheEvent::Allocate(b),
            CacheEvent::Import(b),
        ],
        v1.entry is Some && v1.entry->Some_0.bounds == b,
        allocations(v1.log) == allocations(v0.log) + 1,
        imports(v1.log) == imports(v0.log) + 1,
        releases(v1.log) == releases(v0.log) + 1,
{
    let l1 = v0.log.push(CacheEvent::Release(old_bounds));
    let l2 = l1.push(CacheEvent::Allocate(b));
    assert(v1.log =~= v0.log + seq![
        CacheEvent::Release(old_bounds),
        CacheEvent::Allocate(b),
        CacheEvent::Import(b),
    ]);
    let al = |e: CacheEvent| e is Allocate;
    let im = |e: CacheEvent| e is Import;
    let re = |e: CacheEvent| e is Release;
    lemma_count_push(v0.log, CacheEvent::Release(old_bounds), al);
    lemma_count_push(v0.log, CacheEvent::Release(old_bounds), im);
    lemma_count_push(v0.log, CacheEvent::Release(old_bounds), re);
    lemma_count_push(l1, CacheEvent::Allocate(b), al);
    lemma_count_push(l1, CacheEvent::Allocate(b), im);
    lemma_count_push(l1, CacheEvent::Allocate(b), re);
    lemma_count_push(l2, CacheEvent::Import(b), al);
    lemma_count_push(l2, CacheEvent::Import(b), im);
    lemma_count_push(l2, CacheEvent::Import(b), re);
}

} // verus!
