//! One import, step by step. The driver calls are made by the caller; the
//! session decides what comes next from each outcome and keeps account of
//! what the import holds (the duplicated descriptor, the image, the memory),
//! so that a failed import hands back exactly what must be released.

use vstd::prelude::*;
use crate::handle::BufferHandle;
use crate::import::{
    bind_offset, layout_supported, none_fits, plan_image, select_memory_type, selected,
    source_fd, spec_bind_offset, spec_source_fd, image_matches, type_fits, ImageDescriptor, ImportError,
    MemoryTypeStrategy,
};

verus! {

#[derive(Clone, Copy, Debug, PartialEq, Eq, Structural)]
pub enum ImportStage {
    Duplicating,
    CreatingImage,
    QueryingRequirements,
    AllocatingMemory,
    BindingMemory,
    Wrapping,
    Finished,
    Failed,
}

/// The outcome of the step that the last action asked for.
#[derive(Clone, Copy, Debug, PartialEq, Eq, Structural)]
pub enum ImportEvent {
    Duplicated { fd: i32 },
    DuplicateFailed,
    ImageCreated,
    ImageRejected,
    Requirements { size: u64, type_bits: u32 },
    MemoryAllocated,
    MemoryRejected,
    Bound,
    BindRejected,
    Wrapped,
    WrapRejected,
}

/// What a failed import must release.
#[derive(Clone, Copy, Debug, PartialEq, Eq, Structural)]
pub struct Release {
    pub close_fd: Option<i32>,
    pub destroy_image: bool,
    pub free_memory: bool,
}

/// The next step for the caller.
#[derive(Clone, Copy, Debug, PartialEq, Eq, Structural)]
pub enum ImportAction {
    /// Duplicate this descriptor; the import owns the copy.
    Duplicate { fd: i32 },
    /// Create the native image that the session describes, with no memory bound.
    CreateImage,
    /// Ask the driver for the image's memory requirements.
    QueryRequirements,
    /// Allocate memory dedicated to the image, importing the descriptor `fd`.
    AllocateMemory { fd: i32, size: u64, memory_type: u32 },
    /// Bind the memory to the image at `offset`.
    Bind { offset: u64 },
    /// Wrap image and memory as a texture whose release routine frees both.
    Wrap,
    /// The texture is ready; it now owns the image and the memory.
    Done,
    /// The import failed: release what it held and report `error`.
    Abort { error: ImportError, release: Release },
    /// The import is over; nothing to do.
    Nothing,
}

/// Where an import stands and what it holds.
#[derive(Clone, Copy, Debug, PartialEq, Eq, Structural)]
pub struct ImportState {
    pub stage: ImportStage,
    /// The duplicated descriptor, while the import still owns it.
    pub fd: Option<i32>,
    pub image: bool,
    pub memory: bool,
}

/// An import in progress.
pub struct ImportSession {
    pub(crate) image: ImageDescriptor,
    pub(crate) strategy: MemoryTypeStrategy,
    pub(crate) memory_flags: Vec<u32>,
    pub(crate) source_fd: i32,
    pub(crate) bind_offset: u64,
    pub(crate) state: ImportState,
}

/// An import session as plain values: what it imports and where it stands.
pub struct ImportSessionView {
    pub image: ImageDescriptor,
    pub strategy: MemoryTypeStrategy,
    pub memory_flags: Seq<u32>,
    pub source_fd: i32,
    pub bind_offset: u64,
    pub state: ImportState,
}

impl View for ImportSession {
    type V = ImportSessionView;

    open(crate) spec fn view(&self) -> ImportSessionView {
        ImportSessionView {
            image: self.image,
            strategy: self.strategy,
            memory_flags: self.memory_flags@,
            source_fd: self.source_fd,
            bind_offset: self.bind_offset,
            state: self.state,
        }
    }
}

pub open spec fn terminal(stage: ImportStage) -> bool {
    stage == ImportStage::Finished || stage == ImportStage::Failed
}

/// What each stage holds: the descriptor from its duplication until the
/// driver takes it with the memory; the image from its creation and the
/// memory from its allocation until the texture takes both, or a failure
/// releases them.
pub open spec fn holdings_match(s: ImportState) -> bool {
    match s.stage {
        ImportStage::Duplicating => s.fd is None && !s.image && !s.memory,
        ImportStage::CreatingImage => s.fd is Some && !s.image && !s.memory,
        ImportStage::QueryingRequirements => s.fd is Some && s.image && !s.memory,
        ImportStage::AllocatingMemory => s.fd is Some && s.image && !s.memory,
        ImportStage::BindingMemory => s.fd is None && s.image && s.memory,
        ImportStage::Wrapping => s.fd is None && s.image && s.memory,
        ImportStage::Finished => s.fd is None && !s.image && !s.memory,
        ImportStage::Failed => s.fd is None && !s.image && !s.memory,
    }
}

/// Everything that `s` holds.
pub open spec fn held(s: ImportState) -> Release {
    Release { close_fd: s.fd, destroy_image: s.image, free_memory: s.memory }
}

pub open spec fn failed_state() -> ImportState {
    ImportState { stage: ImportStage::Failed, fd: None, image: false, memory: false }
}

/// The import fails with `error`, releasing all that `s` held.
pub open spec fn aborts(s: ImportState, error: ImportError, s2: ImportState, a: ImportAction) -> bool {
    s2 == failed_state() && a == (ImportAction::Abort { error, release: held(s) })
}

/// The step from `s` on `e`: the next state `s2` and the action `a`.
pub open spec fn step_spec(
    v: ImportSessionView,
    e: ImportEvent,
    s2: ImportState,
    a: ImportAction,
) -> bool {
    let s = v.state;
    if terminal(s.stage) {
        s2 == s && a == ImportAction::Nothing
    } else {
        match e {
            ImportEvent::Duplicated { fd } => if s.stage == ImportStage::Duplicating {
                s2 == (ImportState {
                    stage: ImportStage::CreatingImage,
                    fd: Some(fd),
                    image: false,
                    memory: false,
                })
                    && a == ImportAction::CreateImage
            } else {
                aborts(s, ImportError::DriverRejectedImport, s2, a)
            },
            ImportEvent::DuplicateFailed => aborts(s, ImportError::DriverRejectedImport, s2, a),
            ImportEvent::ImageCreated => if s.stage == ImportStage::CreatingImage {
                s2 == (ImportState {
                    stage: ImportStage::QueryingRequirements,
                    fd: s.fd,
                    image: true,
                    memory: false,
                })
                    && a == ImportAction::QueryRequirements
            } else {
                aborts(s, ImportError::DriverRejectedImport, s2, a)
            },
            ImportEvent::ImageRejected => if s.stage == ImportStage::CreatingImage {
                aborts(s, ImportError::InvalidPlaneLayout, s2, a)
            } else {
                aborts(s, ImportError::DriverRejectedImport, s2, a)
            },
            ImportEvent::Requirements { size, type_bits } => if s.stage
                == ImportStage::QueryingRequirements {
                if none_fits(type_bits, v.memory_flags, false) {
                    aborts(s, ImportError::NoCompatibleMemoryType, s2, a)
                } else {
                    s2 == (ImportState {
                        stage: ImportStage::AllocatingMemory,
                        fd: s.fd,
                        image: true,
                        memory: false,
                    }) && match a {
                        ImportAction::AllocateMemory { fd, size: asked, memory_type } => fd
                            == s.fd->Some_0 && asked == size && selected(
                            v.strategy,
                            type_bits,
                            v.memory_flags,
                            memory_type as int,
                        ),
                        _ => false,
                    }
                }
            } else {
                aborts(s, ImportError::DriverRejectedImport, s2, a)
            },
            ImportEvent::MemoryAllocated => if s.stage == ImportStage::AllocatingMemory {
                s2 == (ImportState {
                    stage: ImportStage::BindingMemory,
                    fd: None,
                    image: true,
                    memory: true,
                }) && a == (ImportAction::Bind { offset: v.bind_offset })
            } else {
                aborts(s, ImportError::DriverRejectedImport, s2, a)
            },
            ImportEvent::MemoryRejected => aborts(s, ImportError::DriverRejectedImport, s2, a),
            ImportEvent::Bound => if s.stage == ImportStage::BindingMemory {
                s2 == (ImportState {
                    stage: ImportStage::Wrapping,
                    fd: None,
                    image: true,
                    memory: true,
                }) && a == ImportAction::Wrap
            } else {
                aborts(s, ImportError::DriverRejectedImport, s2, a)
            },
            ImportEvent::BindRejected => aborts(s, ImportError::DriverRejectedImport, s2, a),
            ImportEvent::Wrapped => if s.stage == ImportStage::Wrapping {
                s2 == (ImportState {
                    stage: ImportStage::Finished,
                    fd: None,
                    image: false,
                    memory: false,
                }) && a == ImportAction::Done
            } else {
                aborts(s, ImportError::DriverRejectedImport, s2, a)
            },
            ImportEvent::WrapRejected => aborts(s, ImportError::DriverRejectedImport, s2, a),
        }
    }
}

impl ImportSession {
    /// A session holds exactly what its stage says.
    #[verifier::type_invariant]
    spec fn holdings_follow_stage(self) -> bool {
        holdings_match(self.state)
    }

    /// Starts importing `h`. An unsupported layout fails here, before any
    /// descriptor is duplicated.
    pub fn start(h: &BufferHandle, strategy: MemoryTypeStrategy, memory_flags: Vec<u32>) -> (r:
        Result<(ImportSession, ImportAction), ImportError>)
        ensures
            match r {
                Ok((session, a)) => {
                    &&& layout_supported(h@)
                    &&& image_matches(h@, session@.image)
                    &&& session@.strategy == strategy
                    &&& session@.memory_flags == memory_flags@
                    &&& session@.source_fd == spec_source_fd(h@)
                    &&& session@.bind_offset == spec_bind_offset(h@)
                    &&& session@.state == (ImportState {
                        stage: ImportStage::Duplicating,
                        fd: None,
                        image: false,
                        memory: false,
                    })
                    &&& a == (ImportAction::Duplicate { fd: spec_source_fd(h@) })
                },
                Err(e) => !layout_supported(h@) && e == ImportError::InvalidPlaneLayout,
            },
    {
        let image = plan_image(h)?;
        let fd = source_fd(h);
        let session = ImportSession {
            image,
            strategy,
            memory_flags,
            source_fd: fd,
            bind_offset: bind_offset(h),
            state: ImportState {
                stage: ImportStage::Duplicating,
                fd: None,
                image: false,
                memory: false,
            },
        };
        Ok((session, ImportAction::Duplicate { fd }))
    }

    /// The native image to create.
    pub fn image(&self) -> (r: &ImageDescriptor)
        ensures
            *r == self@.image,
    {
        &self.image
    }

    pub fn state(&self) -> (r: ImportState)
        ensures
            r == self@.state,
            holdings_match(r),
    {
        proof {
            use_type_invariant(self);
        }
        self.state
    }

    fn abort(&mut self, error: ImportError) -> (a: ImportAction)
        ensures
            final(self)@.state == failed_state(),
            a == (ImportAction::Abort { error, release: held(old(self)@.state) }),
            final(self)@.image == old(self)@.image,
            final(self)@.strategy == old(self)@.strategy,
            final(self)@.memory_flags == old(self)@.memory_flags,
            final(self)@.source_fd == old(self)@.source_fd,
            final(self)@.bind_offset == old(self)@.bind_offset,
    {
        let release = Release {
            close_fd: self.state.fd,
            destroy_image: self.state.image,
            free_memory: self.state.memory,
        };
        self.state = ImportState {
            stage: ImportStage::Failed,
            fd: None,
            image: false,
            memory: false,
        };
        ImportAction::Abort { error, release }
    }

    /// Takes the outcome of the last step and says what to do next.
    pub fn step(&mut self, e: ImportEvent) -> (a: ImportAction)
        ensures
            holdings_match(old(self)@.state),
            step_spec(old(self)@, e, final(self)@.state, a),
            holdings_match(final(self)@.state),
            final(self)@.image == old(self)@.image,
            final(self)@.strategy == old(self)@.strategy,
            final(self)@.memory_flags == old(self)@.memory_flags,
            final(self)@.source_fd == old(self)@.source_fd,
            final(self)@.bind_offset == old(self)@.bind_offset,
    {
        proof {
            use_type_invariant(&*self);
        }
        let stage = self.state.stage;
        if stage == ImportStage::Finished || stage == ImportStage::Failed {
            return ImportAction::Nothing;
        }
        match e {
            ImportEvent::Duplicated { fd } => {
                if stage == ImportStage::Duplicating {
                    self.state = ImportState {
                        stage: ImportStage::CreatingImage,
                        fd: Some(fd),
                        image: false,
                        memory: false,
                    };
                    ImportAction::CreateImage
                } else {
                    self.abort(ImportError::DriverRejectedImport)
                }
            },
            ImportEvent::DuplicateFailed => self.abort(ImportError::DriverRejectedImport),
            ImportEvent::ImageCreated => {
                if stage == ImportStage::CreatingImage {
                    self.state = ImportState {
                        stage: ImportStage::QueryingRequirements,
                        fd: self.state.fd,
                        image: true,
                        memory: false,
                    };
                    ImportAction::QueryRequirements
                } else {
                    self.abort(ImportError::DriverRejectedImport)
                }
            },
            ImportEvent::ImageRejected => {
                if stage == ImportStage::CreatingImage {
                    self.abort(ImportError::InvalidPlaneLayout)
                } else {
                    self.abort(ImportError::DriverRejectedImport)
                }
            },
            ImportEvent::Requirements { size, type_bits } => {
                if stage == ImportStage::QueryingRequirements {
                    match select_memory_type(self.strategy, type_bits, &self.memory_flags) {
                        Ok(memory_type) => {
                            assert(type_fits(type_bits, self.memory_flags@, false, memory_type as int));
                            let fd = match self.state.fd {
                                Some(fd) => fd,
                                None => 0,
                            };
                            self.state = ImportState {
                                stage: ImportStage::AllocatingMemory,
                                fd: self.state.fd,
                                image: true,
                                memory: false,
                            };
                            ImportAction::AllocateMemory { fd, size, memory_type }
                        },
                        Err(_) => self.abort(ImportError::NoCompatibleMemoryType),
                    }
                } else {
                    self.abort(ImportError::DriverRejectedImport)
                }
            },
            ImportEvent::MemoryAllocated => {
                if stage == ImportStage::AllocatingMemory {
                    self.state = ImportState {
                        stage: ImportStage::BindingMemory,
                        fd: None,
                        image: true,
                        memory: true,
                    };
                    ImportAction::Bind { offset: self.bind_offset }
                } else {
                    self.abort(ImportError::DriverRejectedImport)
                }
            },
            ImportEvent::MemoryRejected => self.abort(ImportError::DriverRejectedImport),
            ImportEvent::Bound => {
                if stage == ImportStage::BindingMemory {
                    self.state = ImportState {
                        stage: ImportStage::Wrapping,
                        fd: None,
                        image: true,
                        memory: true,
                    };
                    ImportAction::Wrap
                } else {
                    self.abort(ImportError::DriverRejectedImport)
                }
            },
            ImportEvent::BindRejected => self.abort(ImportError::DriverRejectedImport),
            ImportEvent::Wrapped => {
                if stage == ImportStage::Wrapping {
                    self.state = ImportState {
                        stage: ImportStage::Finished,
                        fd: None,
                        image: false,
                        memory: false,
                    };
                    ImportAction::Done
                } else {
                    self.abort(ImportError::DriverRejectedImport)
                }
            },
            ImportEvent::WrapRejected => self.abort(ImportError::DriverRejectedImport),
        }
    }
}

/// No step leaks what the import holds. A step that fails releases all that
/// the import held (the duplicated descriptor included) and leaves it holding
/// nothing. A descriptor that the import holds is, after any step, still held,
/// taken by the driver along with the memory allocated from it, or handed
/// back to be closed. A finished or failed import holds nothing.
pub proof fn lemma_no_leak(v: ImportSessionView, e: ImportEvent, s2: ImportState, a: ImportAction)
    requires
        holdings_match(v.state),
        step_spec(v, e, s2, a),
    ensures
        a is Abort ==> a->release == held(v.state) && s2 == failed_state(),
        v.state.fd is Some ==> {
            ||| s2.fd == v.state.fd
            ||| (a is Abort && a->release.close_fd == v.state.fd)
            ||| (e == ImportEvent::MemoryAllocated && s2.stage == ImportStage::BindingMemory)
        },
        terminal(s2.stage) ==> s2.fd is None && !s2.image && !s2.memory,
        holdings_match(s2),
{
}

/// The session `v` standing at state `s`.
pub open spec fn at_state(v: ImportSessionView, s: ImportState) -> ImportSessionView {
    ImportSessionView {
        image: v.image,
        strategy: v.strategy,
        memory_flags: v.memory_flags,
        source_fd: v.source_fd,
        bind_offset: v.bind_offset,
        state: s,
    }
}

/// `states` and `actions` are what `events` lead `v` through, step by step.
pub open spec fn is_run(
    v: ImportSessionView,
    events: Seq<ImportEvent>,
    states: Seq<ImportState>,
    actions: Seq<ImportAction>,
) -> bool {
    &&& states.len() == events.len() + 1
    &&& actions.len() == events.len()
    &&& states[0] == v.state
    &&& forall|i: int|
        0 <= i < events.len() ==> step_spec(
            at_state(v, states[i]),
            #[trigger] events[i],
            states[i + 1],
            actions[i],
        )
}

/// Duplicated descriptors that the import holds: none or one.
pub open spec fn fds_held(s: ImportState) -> int {
    if s.fd is Some {
        1
    } else {
        0
    }
}

/// The step from `s` to `s2` took a new duplicate.
pub open spec fn fd_duplicated(s: ImportState, s2: ImportState) -> int {
    if s.fd is None && s2.fd is Some {
        1
    } else {
        0
    }
}

/// The action hands a duplicate back to be closed.
pub open spec fn fd_closed(a: ImportAction) -> int {
    match a {
        ImportAction::Abort { release, .. } => if release.close_fd is Some {
            1
        } else {
            0
        },
        _ => 0,
    }
}

/// The step handed the duplicate to the driver with the memory imported from it.
pub open spec fn fd_taken(s: ImportState, e: ImportEvent, s2: ImportState) -> int {
    if s.fd is Some && e == ImportEvent::MemoryAllocated && s2.stage == ImportStage::BindingMemory {
        1
    } else {
        0
    }
}

/// Duplicates taken over the first `k` steps of a run.
pub open spec fn duplicated_in(states: Seq<ImportState>, k: int) -> int
    decreases k,
{
    if k <= 0 {
        0
    } else {
        duplicated_in(states, k - 1) + fd_duplicated(states[k - 1], states[k])
    }
}

/// Duplicates handed back to be closed over the first `k` steps of a run.
pub open spec fn closed_in(actions: Seq<ImportAction>, k: int) -> int
    decreases k,
{
    if k <= 0 {
        0
    } else {
        closed_in(actions, k - 1) + fd_closed(actions[k - 1])
    }
}

/// Duplicates taken by the driver over the first `k` steps of a run.
pub open spec fn taken_in(states: Seq<ImportState>, events: Seq<ImportEvent>, k: int) -> int
    decreases k,
{
    if k <= 0 {
        0
    } else {
        taken_in(states, events, k - 1) + fd_taken(states[k - 1], events[k - 1], states[k])
    }
}

proof fn lemma_step_accounts(v: ImportSessionView, e: ImportEvent, s2: ImportState, a: ImportAction)
    requires
        holdings_match(v.state),
        step_spec(v, e, s2, a),
    ensures
        fds_held(s2) + fd_closed(a) + fd_taken(v.state, e, s2) == fds_held(v.state) + fd_duplicated(
            v.state,
            s2,
        ),
        holdings_match(s2),
{
    lemma_no_leak(v, e, s2, a);
}

proof fn lemma_prefix_accounts(
    v: ImportSessionView,
    events: Seq<ImportEvent>,
    states: Seq<ImportState>,
    actions: Seq<ImportAction>,
    k: int,
)
    requires
        holdings_match(v.state),
        is_run(v, events, states, actions),
        0 <= k <= events.len(),
    ensures
        holdings_match(states[k]),
        fds_held(states[k]) + closed_in(actions, k) + taken_in(states, events, k) == fds_held(v.state)
            + duplicated_in(states, k),
    decreases k,
{
    if k > 0 {
        lemma_prefix_accounts(v, events, states, actions, k - 1);
        assert(step_spec(at_state(v, states[k - 1]), events[k - 1], states[k], actions[k - 1]));
        lemma_step_accounts(at_state(v, states[k - 1]), events[k - 1], states[k], actions[k - 1]);
    }
}

/// Over any run of an import, every duplicated descriptor is accounted for:
/// the one still held, those handed back to be closed and those the driver
/// took with their memory add up to those duplicated. So an import that
/// starts holding none and ends failed or finished leaves no duplicate
/// behind: each was closed, or taken by the driver and released with its
/// memory.
pub proof fn lemma_run_accounts_for_descriptors(
    v: ImportSessionView,
    events: Seq<ImportEvent>,
    states: Seq<ImportState>,
    actions: Seq<ImportAction>,
)
    requires
        holdings_match(v.state),
        is_run(v, events, states, actions),
    ensures
        fds_held(states.last()) + closed_in(actions, events.len() as int) + taken_in(
            states,
            events,
            events.len() as int,
        ) == fds_held(v.state) + duplicated_in(states, events.len() as int),
        v.state.fd is None && terminal(states.last().stage) ==> closed_in(
            actions,
            events.len() as int,
        ) + taken_in(states, events, events.len() as int) == duplicated_in(
            states,
            events.len() as int,
        ),
{
    let n = events.len() as int;
    lemma_prefix_accounts(v, events, states, actions, n);
    assert(states.last() == states[n]);
}

} // verus!
