use chadland::allocator::AllocationError;
use chadland::cache::{Bounds, BufferCache, CacheError};
use chadland::import::ImportError;
use std::cell::RefCell;

#[derive(Debug, PartialEq)]
struct Texture {
    bounds: Bounds,
    serial: u32,
}

#[derive(Default)]
struct Driver {
    allocations: u32,
    imports: u32,
    releases: Vec<Bounds>,
    log: Vec<String>,
}

fn get(
    cache: &mut BufferCache<Bounds, Texture>,
    d: &RefCell<Driver>,
    b: Bounds,
) -> Result<u32, CacheError> {
    cache
        .get_or_create(
            b,
            |b| {
                let mut d = d.borrow_mut();
                d.allocations += 1;
                d.log.push(format!("allocate {}x{}", b.width, b.height));
                Ok(b)
            },
            |h: &Bounds| {
                let mut d = d.borrow_mut();
                d.imports += 1;
                d.log.push(format!("import {}x{}", h.width, h.height));
                Ok(Texture { bounds: *h, serial: d.imports })
            },
            |e| {
                let mut d = d.borrow_mut();
                d.releases.push(e.bounds);
                d.log.push(format!("release {}x{}", e.bounds.width, e.bounds.height));
            },
        )
        .map(|t| t.serial)
}

#[test]
fn same_bounds_twice_allocates_and_imports_once() {
    let d = RefCell::new(Driver::default());
    let mut cache = BufferCache::new();
    let b = Bounds { width: 500, height: 500 };
    let first = get(&mut cache, &d, b).unwrap();
    let second = get(&mut cache, &d, b).unwrap();
    assert_eq!((first, second), (1, 1));
    let d = d.borrow();
    assert_eq!((d.allocations, d.imports), (1, 1));
    assert!(d.releases.is_empty());
    assert_eq!(cache.current().unwrap().texture, Texture { bounds: b, serial: 1 });
}

#[test]
fn resize_replaces_the_entry_in_full() {
    let d = RefCell::new(Driver::default());
    let mut cache = BufferCache::new();
    let small = Bounds { width: 500, height: 500 };
    let large = Bounds { width: 800, height: 600 };
    get(&mut cache, &d, small).unwrap();
    get(&mut cache, &d, large).unwrap();
    let d = d.borrow();
    assert_eq!((d.allocations, d.imports), (2, 2));
    assert_eq!(d.releases, vec![small]);
    assert_eq!(
        d.log,
        vec!["allocate 500x500", "import 500x500", "release 500x500", "allocate 800x600", "import 800x600"]
    );
    let e = cache.current().unwrap();
    assert_eq!(e.bounds, large);
    assert_eq!(e.handle, large);
    assert_eq!(e.texture, Texture { bounds: large, serial: 2 });
}

#[test]
fn failed_allocation_leaves_no_entry() {
    let mut cache: BufferCache<u32, u32> = BufferCache::new();
    let b = Bounds { width: 4, height: 4 };
    let r = cache.get_or_create(b, |_| Err(AllocationError::OutOfMemory), |_| Ok(1), |_| {});
    assert_eq!(r.err(), Some(CacheError::Allocation(AllocationError::OutOfMemory)));
    assert!(cache.current().is_none());
}

#[test]
fn failed_import_leaves_no_entry_and_next_call_retries() {
    let mut cache: BufferCache<u32, u32> = BufferCache::new();
    let b = Bounds { width: 4, height: 4 };
    let r = cache.get_or_create(b, |_| Ok(7), |_| Err(ImportError::DriverRejectedImport), |_| {});
    assert_eq!(r.err(), Some(CacheError::Import(ImportError::DriverRejectedImport)));
    assert!(cache.current().is_none());
    let r = cache.get_or_create(b, |_| Ok(8), |h: &u32| Ok(*h * 10), |_| {});
    assert_eq!(r.ok().copied(), Some(80));
}
