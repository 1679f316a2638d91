use chadland::handle::{BufferHandle, Plane};
use chadland::import::{ImportError, MemoryTypeStrategy};
use chadland::session::{
    ImportAction, ImportEvent, ImportSession, ImportStage, ImportState, Release,
};
use std::collections::BTreeSet;

const ABGR8888: u32 = 0x3432_4241;

fn handle() -> BufferHandle {
    BufferHandle::new(256, 256, ABGR8888, 0, vec![Plane { fd: 11, offset: 0, stride: 1024 }])
}

#[test]
fn import_runs_every_step_in_order() {
    let (mut s, a) = ImportSession::start(&handle(), MemoryTypeStrategy::FirstMatching, vec![1, 1]).unwrap();
    assert_eq!(a, ImportAction::Duplicate { fd: 11 });
    assert_eq!(s.image().width, 256);
    assert_eq!(s.step(ImportEvent::Duplicated { fd: 40 }), ImportAction::CreateImage);
    assert_eq!(s.step(ImportEvent::ImageCreated), ImportAction::QueryRequirements);
    assert_eq!(
        s.step(ImportEvent::Requirements { size: 262_144, type_bits: 0b10 }),
        ImportAction::AllocateMemory { fd: 40, size: 262_144, memory_type: 1 }
    );
    assert_eq!(s.step(ImportEvent::MemoryAllocated), ImportAction::Bind { offset: 0 });
    assert_eq!(s.step(ImportEvent::Bound), ImportAction::Wrap);
    assert_eq!(s.step(ImportEvent::Wrapped), ImportAction::Done);
    assert_eq!(
        s.state(),
        ImportState { stage: ImportStage::Finished, fd: None, image: false, memory: false }
    );
    assert_eq!(s.step(ImportEvent::Wrapped), ImportAction::Nothing);
}

#[test]
fn unsupported_layout_fails_before_duplicating() {
    let h = BufferHandle::new(256, 256, ABGR8888, 0x00ff_ffff_ffff_ffff, vec![Plane { fd: 11, offset: 0, stride: 1024 }]);
    let r = ImportSession::start(&h, MemoryTypeStrategy::FirstMatching, vec![1]);
    assert_eq!(r.err(), Some(ImportError::InvalidPlaneLayout));
}

/// Plays an import against a pretend driver that fails at `fail_at`, keeping
/// the set of open descriptors, and returns the error and the set.
fn run_failing(fail_at: usize) -> (ImportError, BTreeSet<i32>) {
    let mut open: BTreeSet<i32> = BTreeSet::new();
    open.insert(11);
    let (mut s, mut a) = ImportSession::start(&handle(), MemoryTypeStrategy::PreferDeviceLocal, vec![0, 1]).unwrap();
    let mut step = 0;
    let mut next_fd = 40;
    loop {
        let failing = step == fail_at;
        step += 1;
        let e = match a {
            ImportAction::Duplicate { .. } if failing => ImportEvent::DuplicateFailed,
            ImportAction::Duplicate { .. } => {
                open.insert(next_fd);
                next_fd += 1;
                ImportEvent::Duplicated { fd: next_fd - 1 }
            }
            ImportAction::CreateImage if failing => ImportEvent::ImageRejected,
            ImportAction::CreateImage => ImportEvent::ImageCreated,
            ImportAction::QueryRequirements if failing => ImportEvent::Requirements { size: 1, type_bits: 0 },
            ImportAction::QueryRequirements => ImportEvent::Requirements { size: 1, type_bits: 0b11 },
            ImportAction::AllocateMemory { .. } if failing => ImportEvent::MemoryRejected,
            ImportAction::AllocateMemory { fd, .. } => {
                // the driver owns the descriptor from here on
                assert!(open.remove(&fd));
                ImportEvent::MemoryAllocated
            }
            ImportAction::Bind { .. } if failing => ImportEvent::BindRejected,
            ImportAction::Bind { .. } => ImportEvent::Bound,
            ImportAction::Wrap if failing => ImportEvent::WrapRejected,
            ImportAction::Wrap => ImportEvent::Wrapped,
            ImportAction::Abort { error, release } => {
                if let Some(fd) = release.close_fd {
                    assert!(open.remove(&fd));
                }
                return (error, open);
            }
            ImportAction::Done | ImportAction::Nothing => panic!("import did not fail"),
        };
        a = s.step(e);
    }
}

#[test]
fn failed_imports_close_the_duplicated_descriptor() {
    let expected = [
        ImportError::DriverRejectedImport,
        ImportError::InvalidPlaneLayout,
        ImportError::NoCompatibleMemoryType,
        ImportError::DriverRejectedImport,
        ImportError::DriverRejectedImport,
        ImportError::DriverRejectedImport,
    ];
    for (at, want) in expected.iter().enumerate() {
        let (error, open) = run_failing(at);
        assert_eq!(error, *want);
        // only the source handle's own descriptor is left open
        assert_eq!(open.into_iter().collect::<Vec<_>>(), vec![11]);
    }
}

#[test]
fn abort_releases_exactly_what_is_held() {
    let (mut s, _) = ImportSession::start(&handle(), MemoryTypeStrategy::FirstMatching, vec![1]).unwrap();
    s.step(ImportEvent::Duplicated { fd: 50 });
    s.step(ImportEvent::ImageCreated);
    s.step(ImportEvent::Requirements { size: 4096, type_bits: 1 });
    s.step(ImportEvent::MemoryAllocated);
    assert_eq!(
        s.step(ImportEvent::BindRejected),
        ImportAction::Abort {
            error: ImportError::DriverRejectedImport,
            release: Release { close_fd: None, destroy_image: true, free_memory: true },
        }
    );
    assert_eq!(s.step(ImportEvent::Bound), ImportAction::Nothing);
}

#[test]
fn no_compatible_memory_type_releases_image_and_descriptor() {
    let (mut s, _) = ImportSession::start(&handle(), MemoryTypeStrategy::FirstMatching, vec![1]).unwrap();
    s.step(ImportEvent::Duplicated { fd: 50 });
    s.step(ImportEvent::ImageCreated);
    assert_eq!(
        s.step(ImportEvent::Requirements { size: 4096, type_bits: 0b10 }),
        ImportAction::Abort {
            error: ImportError::NoCompatibleMemoryType,
            release: Release { close_fd: Some(50), destroy_image: true, free_memory: false },
        }
    );
}

#[test]
fn out_of_order_event_aborts() {
    let (mut s, _) = ImportSession::start(&handle(), MemoryTypeStrategy::FirstMatching, vec![1]).unwrap();
    s.step(ImportEvent::Duplicated { fd: 50 });
    assert_eq!(
        s.step(ImportEvent::MemoryAllocated),
        ImportAction::Abort {
            error: ImportError::DriverRejectedImport,
            release: Release { close_fd: Some(50), destroy_image: false, free_memory: false },
        }
    );
}
