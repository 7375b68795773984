//! The persistable temporary file and its publish protocol.
//!
//! A temporary file is backed either by an unnamed platform handle —
//! an open file with no directory entry — or by a conventional named
//! temporary file from the fallback provider. The choice is made once,
//! at creation, and never changes.
//!
//! Publishing is a protocol of individually atomic filesystem steps: a
//! direct no-clobber link at the destination, and, when that path is
//! occupied, a search for a free randomly named sibling that is then
//! renamed onto the destination. `RenameFlow` is that protocol as a
//! state machine: the caller performs each step against the real
//! filesystem and reports its outcome, and the machine decides what
//! comes next. Every transition is pinned by `flow_next`, and the
//! proofs at the end of this module establish, over the directory
//! model, that the destination only ever changes atomically from its
//! old content to the buffered content, and that a finished protocol
//! leaves no sibling behind.

use vstd::prelude::*;
use vstd::pervasive::unreached;
use crate::RETRY_CAP;
use crate::errs::ErrorKind;
use crate::fsmodel::{
    DirModel, FsOutcome, entry, link_effect, link_wf, remove_effect, rename_effect, rename_wf,
};
use crate::tempname::{candidate_path, is_candidate, make_candidate, random_u64};

verus! {

/// Which strategy backs a temporary file: an unnamed platform handle,
/// or the named fallback provider.
#[derive(Clone, Copy, Debug, PartialEq, Eq, Structural)]
pub enum Backing {
    /// An open file with no directory entry, reachable only through
    /// its descriptor.
    Unnamed,
    /// A conventional named temporary file, persisted and cleaned up
    /// by the fallback provider.
    Fallback,
}

/// A temporary file awaiting publication: the strategy that backs it
/// and the content buffered into it so far.
pub struct PersistableTempFile {
    /// The strategy chosen at creation; fixed for the life of the
    /// value.
    pub backing: Backing,
    /// The bytes buffered into the temporary file.
    pub content: Vec<u8>,
}

/// Error returned when persisting a temporary file fails: the kind of
/// failure, together with the temporary file itself, so the caller can
/// retry or abandon it without losing the buffered content.
pub struct PersistError {
    /// What went wrong.
    pub kind: ErrorKind,
    /// The temporary file that could not be persisted, unchanged.
    pub file: PersistableTempFile,
}

impl PersistableTempFile {
    /// Create a temporary file. `unnamed_ok` reports whether the
    /// platform produced an unnamed handle in the target directory;
    /// when it could not — an expected condition on platforms or
    /// filesystems without that mode — the named fallback is used
    /// silently.
    pub fn new_in(unnamed_ok: bool) -> (f: Self)
        ensures
            f.backing == (if unnamed_ok {
                Backing::Unnamed
            } else {
                Backing::Fallback
            }),
            f.content@ == Seq::<u8>::empty(),
    {
        PersistableTempFile {
            backing: if unnamed_ok {
                Backing::Unnamed
            } else {
                Backing::Fallback
            },
            content: Vec::new(),
        }
    }

    /// Append bytes to the buffered content. This never touches any
    /// destination path.
    pub fn write(&mut self, buf: &Vec<u8>) -> (n: usize)
        ensures
            final(self).content@ == old(self).content@ + buf@,
            final(self).backing == old(self).backing,
            n == buf@.len(),
    {
        let mut i: usize = 0;
        while i < buf.len()
            invariant
                0 <= i <= buf@.len(),
                self.content@ == old(self).content@ + buf@.take(i as int),
                self.backing == old(self).backing,
            decreases buf@.len() - i,
        {
            let b = buf[i];
            self.content.push(b);
            proof {
                assert(buf@.take(i + 1) =~= buf@.take(i as int) + seq![buf@[i as int]]);
                assert(self.content@ =~= old(self).content@ + buf@.take(i + 1));
            }
            i += 1;
        }
        proof {
            assert(buf@.take(buf@.len() as int) =~= buf@);
        }
        buf.len()
    }

    /// Publish the buffered content at a path that must not exist,
    /// consuming the file. `outcome` is what the single atomic
    /// no-clobber step reported: a direct link into the namespace for
    /// the unnamed backing, the fallback provider's own exclusive
    /// persist otherwise — the observable behaviour is the same for
    /// both. On failure the file comes back untouched inside the
    /// error: an occupied destination is `AlreadyExists`, anything
    /// else is `Io`.
    pub fn persist_noclobber(self, outcome: FsOutcome) -> (r: Result<(), PersistError>)
        ensures
            match r {
                Ok(()) => outcome == FsOutcome::Success,
                Err(e) => {
                    &&& outcome != FsOutcome::Success
                    &&& e.kind == (if outcome == FsOutcome::Occupied {
                        ErrorKind::AlreadyExists
                    } else {
                        ErrorKind::Io
                    })
                    &&& e.file.backing == self.backing
                    &&& e.file.content@ == self.content@
                },
            },
    {
        match outcome {
            FsOutcome::Success => Ok(()),
            FsOutcome::Occupied => Err(PersistError { kind: ErrorKind::AlreadyExists, file: self }),
            FsOutcome::Failure => Err(PersistError { kind: ErrorKind::Io, file: self }),
        }
    }

    /// Begin publishing the buffered content at `dest`, overwriting
    /// any existing entry, by the rename-based protocol. `parent` is
    /// the directory holding `dest`, where sibling candidates are
    /// created so the final rename never crosses a filesystem. The
    /// returned machine starts at the protocol's first step and owns
    /// the file until `finish`.
    pub fn persist_by_rename(self, dest: Vec<u8>, parent: Vec<u8>) -> (f: RenameFlow)
        ensures
            f@ == flow_init(self.backing, self.content@, dest@, parent@),
    {
        RenameFlow::new(self, dest, parent)
    }
}

/// The states of the rename-based publish protocol. Each non-terminal
/// state names the one filesystem step the caller must perform next.
pub enum FlowState {
    /// Attempt a no-clobber link of the unnamed handle directly at the
    /// destination.
    LinkingDest,
    /// Attempt a no-clobber link of the unnamed handle at this sibling
    /// candidate path.
    LinkingSibling(Vec<u8>),
    /// Atomically rename this linked sibling onto the destination.
    Renaming(Vec<u8>),
    /// Best-effort removal of this sibling after a failed rename; its
    /// own failure is swallowed, the rename failure is what is
    /// reported.
    Removing(Vec<u8>),
    /// Hand the whole overwrite to the fallback provider's own atomic
    /// persist.
    Delegating,
    /// The content is published at the destination.
    Done,
    /// The protocol failed; the file is still owned and intact.
    Failed(ErrorKind),
}

/// The rename-based publish protocol, mid-flight.
pub struct RenameFlow {
    /// The temporary file being published; untouched until the
    /// protocol ends.
    pub file: PersistableTempFile,
    /// The destination path.
    pub dest: Vec<u8>,
    /// The directory holding the destination.
    pub parent: Vec<u8>,
    /// How many sibling candidates have been tried.
    pub attempts: u32,
    /// Where the protocol stands.
    pub state: FlowState,
}

/// The abstract state of a `RenameFlow`.
pub struct FlowView {
    pub backing: Backing,
    pub content: Seq<u8>,
    pub dest: Seq<u8>,
    pub parent: Seq<u8>,
    pub attempts: int,
    pub state: StateView,
}

/// The abstract counterpart of `FlowState`.
pub enum StateView {
    LinkingDest,
    LinkingSibling(Seq<u8>),
    Renaming(Seq<u8>),
    Removing(Seq<u8>),
    Delegating,
    Done,
    Failed(ErrorKind),
}

/// The abstraction of a concrete protocol state.
pub open spec fn state_view(s: FlowState) -> StateView {
    match s {
        FlowState::LinkingDest => StateView::LinkingDest,
        FlowState::LinkingSibling(c) => StateView::LinkingSibling(c@),
        FlowState::Renaming(c) => StateView::Renaming(c@),
        FlowState::Removing(c) => StateView::Removing(c@),
        FlowState::Delegating => StateView::Delegating,
        FlowState::Done => StateView::Done,
        FlowState::Failed(k) => StateView::Failed(k),
    }
}

impl View for RenameFlow {
    type V = FlowView;

    open spec fn view(&self) -> FlowView {
        FlowView {
            backing: self.file.backing,
            content: self.file.content@,
            dest: self.dest@,
            parent: self.parent@,
            attempts: self.attempts as int,
            state: state_view(self.state),
        }
    }
}

/// A protocol in a terminal state takes no further step.
pub open spec fn is_terminal(s: StateView) -> bool {
    s == StateView::Done || s is Failed
}

/// The protocol's starting point: the unnamed backing first tries a
/// direct link at the destination; the fallback backing delegates the
/// overwrite to its provider.
pub open spec fn flow_init(backing: Backing, content: Seq<u8>, dest: Seq<u8>, parent: Seq<u8>)
    -> FlowView {
    FlowView {
        backing,
        content,
        dest,
        parent,
        attempts: 0,
        state: if backing == Backing::Unnamed {
            StateView::LinkingDest
        } else {
            StateView::Delegating
        },
    }
}

/// The protocol's transition relation: from the state `m`, when the
/// pending filesystem step reports `oc` and `r` is the random value
/// drawn for the next candidate (ignored by transitions that draw
/// none), this is the next state.
///
/// A direct link that succeeds finishes at once: the destination did
/// not exist. Any failure there moves to the sibling search. A sibling
/// collision retries with a fresh candidate until `RETRY_CAP` draws
/// are spent; any other sibling-link failure is fatal immediately. A
/// linked sibling is renamed onto the destination; if the rename
/// fails, the sibling is removed best-effort and the rename failure is
/// reported. The fallback delegation either succeeds or fails in one
/// step.
pub open spec fn flow_next(m: FlowView, oc: FsOutcome, r: u64) -> FlowView {
    match m.state {
        StateView::LinkingDest => if oc == FsOutcome::Success {
            FlowView { state: StateView::Done, ..m }
        } else {
            FlowView {
                attempts: 1,
                state: StateView::LinkingSibling(candidate_path(m.parent, r)),
                ..m
            }
        },
        StateView::LinkingSibling(c) => if oc == FsOutcome::Success {
            FlowView { state: StateView::Renaming(c), ..m }
        } else if oc == FsOutcome::Occupied {
            if m.attempts < RETRY_CAP {
                FlowView {
                    attempts: m.attempts + 1,
                    state: StateView::LinkingSibling(candidate_path(m.parent, r)),
                    ..m
                }
            } else {
                FlowView { state: StateView::Failed(ErrorKind::RetriesExhausted), ..m }
            }
        } else {
            FlowView { state: StateView::Failed(ErrorKind::Io), ..m }
        },
        StateView::Renaming(c) => if oc == FsOutcome::Success {
            FlowView { state: StateView::Done, ..m }
        } else {
            FlowView { state: StateView::Removing(c), ..m }
        },
        StateView::Removing(_) => FlowView { state: StateView::Failed(ErrorKind::Io), ..m },
        StateView::Delegating => if oc == FsOutcome::Success {
            FlowView { state: StateView::Done, ..m }
        } else {
            FlowView { state: StateView::Failed(ErrorKind::Io), ..m }
        },
        StateView::Done => m,
        StateView::Failed(_) => m,
    }
}

/// What the pending step, reporting `oc`, does to the directory `d`.
pub open spec fn flow_step_effect(m: FlowView, oc: FsOutcome, d: DirModel) -> DirModel {
    match m.state {
        StateView::LinkingDest => link_effect(d, m.dest, m.content, oc),
        StateView::LinkingSibling(c) => link_effect(d, c, m.content, oc),
        StateView::Renaming(c) => rename_effect(d, c, m.dest, oc),
        StateView::Removing(c) => remove_effect(d, c, oc),
        StateView::Delegating => if oc == FsOutcome::Success {
            DirModel { files: d.files.insert(m.dest, m.content) }
        } else {
            d
        },
        StateView::Done => d,
        StateView::Failed(_) => d,
    }
}

/// Which outcomes the pending step can report against the directory
/// `d`. Terminal states have no step.
pub open spec fn flow_step_wf(m: FlowView, oc: FsOutcome, d: DirModel) -> bool {
    match m.state {
        StateView::LinkingDest => link_wf(d, m.dest, oc),
        StateView::LinkingSibling(c) => link_wf(d, c, oc),
        StateView::Renaming(c) => rename_wf(d, c, oc),
        StateView::Removing(_) => oc != FsOutcome::Occupied,
        StateView::Delegating => true,
        StateView::Done => false,
        StateView::Failed(_) => false,
    }
}

impl RenameFlow {
    /// Start the publish protocol for `file` at `dest`, whose
    /// directory is `parent`.
    pub fn new(file: PersistableTempFile, dest: Vec<u8>, parent: Vec<u8>) -> (f: Self)
        ensures
            f@ == flow_init(file.backing, file.content@, dest@, parent@),
    {
        let state = match file.backing {
            Backing::Unnamed => FlowState::LinkingDest,
            Backing::Fallback => FlowState::Delegating,
        };
        RenameFlow { file, dest, parent, attempts: 0, state }
    }

    /// Whether the protocol has ended, in success or failure.
    pub fn is_finished(&self) -> (b: bool)
        ensures
            b == is_terminal(self@.state),
    {
        match self.state {
            FlowState::Done => true,
            FlowState::Failed(_) => true,
            _ => false,
        }
    }

    /// Advance the protocol by one step: `outcome` is what the pending
    /// filesystem operation reported. When a fresh sibling candidate
    /// is needed, its random value is drawn here.
    pub fn step(&mut self, outcome: FsOutcome)
        requires
            !is_terminal(old(self)@.state),
        ensures
            exists|r: u64| final(self)@ == flow_next(old(self)@, outcome, r),
    {
        let mut taken = FlowState::Done;
        core::mem::swap(&mut taken, &mut self.state);
        match taken {
            FlowState::LinkingDest => {
                if outcome == FsOutcome::Success {
                    self.state = FlowState::Done;
                    proof {
                        assert(self@ == flow_next(old(self)@, outcome, 0));
                    }
                } else {
                    let r = random_u64();
                    let c = make_candidate(&self.parent, r);
                    self.attempts = 1;
                    self.state = FlowState::LinkingSibling(c);
                    proof {
                        assert(self@ == flow_next(old(self)@, outcome, r));
                    }
                }
            },
            FlowState::LinkingSibling(c) => {
                if outcome == FsOutcome::Success {
                    self.state = FlowState::Renaming(c);
                    proof {
                        assert(self@ == flow_next(old(self)@, outcome, 0));
                    }
                } else if outcome == FsOutcome::Occupied {
                    if self.attempts < RETRY_CAP {
                        let r = random_u64();
                        let c2 = make_candidate(&self.parent, r);
                        self.attempts = self.attempts + 1;
                        self.state = FlowState::LinkingSibling(c2);
                        proof {
                            assert(self@ == flow_next(old(self)@, outcome, r));
                        }
                    } else {
                        self.state = FlowState::Failed(ErrorKind::RetriesExhausted);
                        proof {
                            assert(self@ == flow_next(old(self)@, outcome, 0));
                        }
                    }
                } else {
                    self.state = FlowState::Failed(ErrorKind::Io);
                    proof {
                        assert(self@ == flow_next(old(self)@, outcome, 0));
                    }
                }
            },
            FlowState::Renaming(c) => {
                if outcome == FsOutcome::Success {
                    self.state = FlowState::Done;
                    proof {
                        assert(self@ == flow_next(old(self)@, outcome, 0));
                    }
                } else {
                    self.state = FlowState::Removing(c);
                    proof {
                        assert(self@ == flow_next(old(self)@, outcome, 0));
                    }
                }
            },
            FlowState::Removing(_) => {
                self.state = FlowState::Failed(ErrorKind::Io);
                proof {
                    assert(self@ == flow_next(old(self)@, outcome, 0));
                }
            },
            FlowState::Delegating => {
                if outcome == FsOutcome::Success {
                    self.state = FlowState::Done;
                    proof {
                        assert(self@ == flow_next(old(self)@, outcome, 0));
                    }
                } else {
                    self.state = FlowState::Failed(ErrorKind::Io);
                    proof {
                        assert(self@ == flow_next(old(self)@, outcome, 0));
                    }
                }
            },
            FlowState::Done => {
                unreached::<()>();
            },
            FlowState::Failed(_) => {
                unreached::<()>();
            },
        }
    }

    /// End the protocol: success, or the failure kind together with
    /// the temporary file, which still holds the full buffered
    /// content.
    pub fn finish(self) -> (r: Result<(), PersistError>)
        requires
            is_terminal(self@.state),
        ensures
            match r {
                Ok(()) => self@.state == StateView::Done,
                Err(e) => {
                    &&& self@.state == StateView::Failed(e.kind)
                    &&& e.file.backing == self@.backing
                    &&& e.file.content@ == self@.content
                },
            },
    {
        match self.state {
            FlowState::Done => Ok(()),
            FlowState::Failed(k) => Err(PersistError { kind: k, file: self.file }),
            _ => unreached(),
        }
    }
}

/// The protocol invariant, relating the machine `m` and the current
/// directory `d` to the directory `d0` the protocol started against.
///
/// Until a sibling is linked, the directory is untouched. While a
/// linked sibling awaits its rename (or its best-effort removal after
/// a failed one), the directory is the starting one plus exactly that
/// sibling, which was free before. A finished protocol has published
/// exactly the buffered content at the destination; a failed one has
/// left the directory as it was, except possibly for one abandoned
/// sibling whose removal itself failed.
pub open spec fn flow_inv(m: FlowView, d: DirModel, d0: DirModel) -> bool {
    match m.state {
        StateView::LinkingDest => m.backing == Backing::Unnamed && d == d0,
        StateView::LinkingSibling(c) => {
            &&& m.backing == Backing::Unnamed
            &&& d == d0
            &&& is_candidate(m.parent, c)
        },
        StateView::Renaming(c) => {
            &&& m.backing == Backing::Unnamed
            &&& is_candidate(m.parent, c)
            &&& !d0.files.contains_key(c)
            &&& d.files == d0.files.insert(c, m.content)
        },
        StateView::Removing(c) => {
            &&& m.backing == Backing::Unnamed
            &&& is_candidate(m.parent, c)
            &&& !d0.files.contains_key(c)
            &&& d.files == d0.files.insert(c, m.content)
        },
        StateView::Delegating => m.backing == Backing::Fallback && d == d0,
        StateView::Done => d.files == d0.files.insert(m.dest, m.content),
        StateView::Failed(_) => d == d0 || (exists|c: Seq<u8>|
            {
                &&& is_candidate(m.parent, c)
                &&& !d0.files.contains_key(c)
                &&& d.files == d0.files.insert(c, m.content)
            }),
    }
}

/// The protocol starts in its invariant, whichever backing it has.
pub proof fn lemma_flow_init_inv(
    backing: Backing,
    content: Seq<u8>,
    dest: Seq<u8>,
    parent: Seq<u8>,
    d0: DirModel,
)
    ensures
        flow_inv(flow_init(backing, content, dest, parent), d0, d0),
{
}

/// One well-formed step keeps the invariant, and never changes what
/// is being published or where.
pub proof fn lemma_flow_step_preserves_inv(
    m: FlowView,
    oc: FsOutcome,
    r: u64,
    d: DirModel,
    d0: DirModel,
)
    requires
        flow_inv(m, d, d0),
        flow_step_wf(m, oc, d),
    ensures
        flow_inv(flow_next(m, oc, r), flow_step_effect(m, oc, d), d0),
        flow_next(m, oc, r).dest == m.dest,
        flow_next(m, oc, r).parent == m.parent,
        flow_next(m, oc, r).content == m.content,
        flow_next(m, oc, r).backing == m.backing,
{
    let m2 = flow_next(m, oc, r);
    let d2 = flow_step_effect(m, oc, d);
    match m.state {
        StateView::LinkingDest => {
        },
        StateView::LinkingSibling(c) => {
        },
        StateView::Renaming(c) => {
            if oc == FsOutcome::Success {
                assert(d.files[c] == m.content);
                assert(d.files.remove(c) =~= d0.files);
                assert(d2.files =~= d0.files.insert(m.dest, m.content));
            }
        },
        StateView::Removing(c) => {
            if oc == FsOutcome::Success {
                assert(d2.files =~= d0.files);
                assert(d2 == d0);
            } else {
                assert(is_candidate(m2.parent, c) && !d0.files.contains_key(c)
                    && d2.files == d0.files.insert(c, m2.content));
            }
        },
        StateView::Delegating => {
        },
        StateView::Done => {
        },
        StateView::Failed(_) => {
        },
    }
}

/// In every state the invariant reaches, a reader polling the
/// destination sees either what was there before the protocol began
/// or the complete buffered content — never anything else.
pub proof fn lemma_flow_inv_atomic(m: FlowView, d: DirModel, d0: DirModel)
    requires
        flow_inv(m, d, d0),
    ensures
        entry(d, m.dest) == entry(d0, m.dest) || entry(d, m.dest) == Some(m.content),
{
    match m.state {
        StateView::Renaming(c) => {
            assert(d.files == d0.files.insert(c, m.content));
        },
        StateView::Removing(c) => {
            assert(d.files == d0.files.insert(c, m.content));
        },
        StateView::Failed(_) => {
            if d != d0 {
                let c = choose|c: Seq<u8>|
                    {
                        &&& is_candidate(m.parent, c)
                        &&& !d0.files.contains_key(c)
                        &&& d.files == d0.files.insert(c, m.content)
                    };
                assert(d.files == d0.files.insert(c, m.content));
            }
        },
        _ => {
        },
    }
}

/// A finished protocol has published exactly the buffered content at
/// the destination, and the directory holds no entry it did not hold
/// before beyond the destination itself.
pub proof fn lemma_flow_done(m: FlowView, d: DirModel, d0: DirModel)
    requires
        flow_inv(m, d, d0),
        m.state == StateView::Done,
    ensures
        entry(d, m.dest) == Some(m.content),
        d.files.dom() == d0.files.dom().insert(m.dest),
{
    assert(d.files.dom() =~= d0.files.dom().insert(m.dest));
}

/// One observed step of an execution: the outcome the filesystem
/// reported for the pending operation, and the random value drawn for
/// the next candidate (unused by steps that draw none).
#[derive(Clone, Copy, Debug, PartialEq, Eq, Structural)]
pub struct FlowEvent {
    pub outcome: FsOutcome,
    pub draw: u64,
}

/// The machine and directory after an execution: the events of `evs`
/// applied in order.
pub open spec fn run_flow(m: FlowView, d: DirModel, evs: Seq<FlowEvent>) -> (FlowView, DirModel)
    decreases evs.len(),
{
    if evs.len() == 0 {
        (m, d)
    } else {
        run_flow(
            flow_next(m, evs[0].outcome, evs[0].draw),
            flow_step_effect(m, evs[0].outcome, d),
            evs.drop_first(),
        )
    }
}

/// Whether every outcome in `evs` is one its operation could really
/// report against the directory state of its moment.
pub open spec fn run_wf(m: FlowView, d: DirModel, evs: Seq<FlowEvent>) -> bool
    decreases evs.len(),
{
    evs.len() == 0 || {
        &&& flow_step_wf(m, evs[0].outcome, d)
        &&& run_wf(
            flow_next(m, evs[0].outcome, evs[0].draw),
            flow_step_effect(m, evs[0].outcome, d),
            evs.drop_first(),
        )
    }
}

/// The invariant holds along every well-formed execution, which also
/// never changes what is being published or where.
pub proof fn lemma_run_preserves_inv(m: FlowView, d: DirModel, d0: DirModel, evs: Seq<FlowEvent>)
    requires
        flow_inv(m, d, d0),
        run_wf(m, d, evs),
    ensures
        flow_inv(run_flow(m, d, evs).0, run_flow(m, d, evs).1, d0),
        run_flow(m, d, evs).0.dest == m.dest,
        run_flow(m, d, evs).0.parent == m.parent,
        run_flow(m, d, evs).0.content == m.content,
        run_flow(m, d, evs).0.backing == m.backing,
    decreases evs.len(),
{
    if evs.len() > 0 {
        lemma_flow_step_preserves_inv(m, evs[0].outcome, evs[0].draw, d, d0);
        lemma_run_preserves_inv(
            flow_next(m, evs[0].outcome, evs[0].draw),
            flow_step_effect(m, evs[0].outcome, d),
            d0,
            evs.drop_first(),
        );
    }
}

/// A prefix of a well-formed execution is itself well-formed: the
/// state of any moment mid-protocol is the end state of some shorter
/// execution.
pub proof fn lemma_run_wf_prefix(m: FlowView, d: DirModel, evs: Seq<FlowEvent>, i: int)
    requires
        run_wf(m, d, evs),
        0 <= i <= evs.len(),
    ensures
        run_wf(m, d, evs.take(i)),
    decreases i,
{
    if i > 0 {
        lemma_run_wf_prefix(
            flow_next(m, evs[0].outcome, evs[0].draw),
            flow_step_effect(m, evs[0].outcome, d),
            evs.drop_first(),
            i - 1,
        );
        assert(evs.take(i).drop_first() =~= evs.drop_first().take(i - 1));
        assert(evs.take(i)[0] == evs[0]);
    }
}

/// Law: no partial visibility. Along any well-formed execution of the
/// publish protocol — with either backing — a reader polling the
/// destination observes either its original state or the complete
/// buffered content, never a mixture, because every step of the
/// protocol is an atomic link, rename or removal and none writes to
/// the destination in place.
pub proof fn lemma_no_partial_visibility(
    backing: Backing,
    content: Seq<u8>,
    dest: Seq<u8>,
    parent: Seq<u8>,
    d0: DirModel,
    evs: Seq<FlowEvent>,
)
    requires
        run_wf(flow_init(backing, content, dest, parent), d0, evs),
    ensures
        ({
            let end = run_flow(flow_init(backing, content, dest, parent), d0, evs);
            entry(end.1, dest) == entry(d0, dest) || entry(end.1, dest) == Some(content)
        }),
{
    let m0 = flow_init(backing, content, dest, parent);
    lemma_flow_init_inv(backing, content, dest, parent, d0);
    lemma_run_preserves_inv(m0, d0, d0, evs);
    lemma_flow_inv_atomic(run_flow(m0, d0, evs).0, run_flow(m0, d0, evs).1, d0);
}

/// Law: no partial visibility, at every moment. A reader polling the
/// destination after any number of steps of a well-formed execution —
/// not only at its end — observes either the original state or the
/// complete buffered content, since that moment is the end of the
/// execution's prefix.
pub proof fn lemma_no_partial_visibility_during(
    backing: Backing,
    content: Seq<u8>,
    dest: Seq<u8>,
    parent: Seq<u8>,
    d0: DirModel,
    evs: Seq<FlowEvent>,
    i: int,
)
    requires
        run_wf(flow_init(backing, content, dest, parent), d0, evs),
        0 <= i <= evs.len(),
    ensures
        ({
            let mid = run_flow(flow_init(backing, content, dest, parent), d0, evs.take(i));
            entry(mid.1, dest) == entry(d0, dest) || entry(mid.1, dest) == Some(content)
        }),
{
    lemma_run_wf_prefix(flow_init(backing, content, dest, parent), d0, evs, i);
    lemma_no_partial_visibility(backing, content, dest, parent, d0, evs.take(i));
}

/// Law: exact publication and directory cleanliness. Any well-formed
/// execution that finishes — with either backing — has published
/// exactly the buffered bytes at the destination, and has left no
/// sibling or other entry behind: the directory holds precisely what
/// it held before, plus the destination.
pub proof fn lemma_publish_exact(
    backing: Backing,
    content: Seq<u8>,
    dest: Seq<u8>,
    parent: Seq<u8>,
    d0: DirModel,
    evs: Seq<FlowEvent>,
)
    requires
        run_wf(flow_init(backing, content, dest, parent), d0, evs),
        run_flow(flow_init(backing, content, dest, parent), d0, evs).0.state == StateView::Done,
    ensures
        ({
            let end = run_flow(flow_init(backing, content, dest, parent), d0, evs);
            &&& entry(end.1, dest) == Some(content)
            &&& end.1.files.dom() == d0.files.dom().insert(dest)
        }),
{
    let m0 = flow_init(backing, content, dest, parent);
    lemma_flow_init_inv(backing, content, dest, parent, d0);
    lemma_run_preserves_inv(m0, d0, d0, evs);
    lemma_flow_done(run_flow(m0, d0, evs).0, run_flow(m0, d0, evs).1, d0);
}

/// Law: no-clobber enforcement. Against a directory that already
/// holds the destination, the exclusive publish step cannot succeed,
/// and it leaves every entry — the destination's content included —
/// exactly as it was.
pub proof fn lemma_noclobber_blocked(d: DirModel, dest: Seq<u8>, content: Seq<u8>, oc: FsOutcome)
    requires
        d.files.contains_key(dest),
        link_wf(d, dest, oc),
    ensures
        oc != FsOutcome::Success,
        link_effect(d, dest, content, oc) == d,
{
}

/// Law: no-clobber publication. An exclusive publish step that
/// succeeds proves the destination was free at that instant, and in
/// the same atomic step the destination comes to hold exactly the
/// buffered content, with no other entry touched.
pub proof fn lemma_noclobber_publishes(d: DirModel, dest: Seq<u8>, content: Seq<u8>)
    requires
        link_wf(d, dest, FsOutcome::Success),
    ensures
        !d.files.contains_key(dest),
        entry(link_effect(d, dest, content, FsOutcome::Success), dest) == Some(content),
        link_effect(d, dest, content, FsOutcome::Success).files.dom() == d.files.dom().insert(
            dest,
        ),
{
    assert(link_effect(d, dest, content, FsOutcome::Success).files.dom() =~= d.files.dom().insert(
        dest,
    ));
}

/// Law: recovery by rename. When the destination is occupied — the
/// very situation in which a no-clobber publish is refused — the
/// rename-based protocol can still finish, provided some sibling
/// candidate is free: occupied destination, free sibling linked,
/// sibling renamed into place is a well-formed execution ending
/// `Done`, after which `lemma_publish_exact` gives the new content.
pub proof fn lemma_rename_recovers(
    content: Seq<u8>,
    dest: Seq<u8>,
    parent: Seq<u8>,
    d0: DirModel,
    r: u64,
)
    requires
        d0.files.contains_key(dest),
        !d0.files.contains_key(candidate_path(parent, r)),
    ensures
        exists|evs: Seq<FlowEvent>|
            #[trigger] run_wf(flow_init(Backing::Unnamed, content, dest, parent), d0, evs)
                && run_flow(flow_init(Backing::Unnamed, content, dest, parent), d0, evs).0.state
                == StateView::Done,
{
    let m0 = flow_init(Backing::Unnamed, content, dest, parent);
    let c = candidate_path(parent, r);
    let ev0 = FlowEvent { outcome: FsOutcome::Occupied, draw: r };
    let ev1 = FlowEvent { outcome: FsOutcome::Success, draw: 0 };
    let ev2 = FlowEvent { outcome: FsOutcome::Success, draw: 0 };
    let evs = seq![ev0, ev1, ev2];

    let m1 = flow_next(m0, ev0.outcome, ev0.draw);
    let d1 = flow_step_effect(m0, ev0.outcome, d0);
    let m2 = flow_next(m1, ev1.outcome, ev1.draw);
    let d2 = flow_step_effect(m1, ev1.outcome, d1);
    let m3 = flow_next(m2, ev2.outcome, ev2.draw);
    let d3 = flow_step_effect(m2, ev2.outcome, d2);

    assert(m1.state == StateView::LinkingSibling(c));
    assert(d1 == d0);
    assert(m2.state == StateView::Renaming(c));
    assert(d2.files == d0.files.insert(c, content));
    assert(d2.files.contains_key(c));
    assert(m3.state == StateView::Done);

    assert(evs.drop_first() =~= seq![ev1, ev2]);
    assert(evs.drop_first().drop_first() =~= seq![ev2]);
    assert(evs.drop_first().drop_first().drop_first() =~= Seq::<FlowEvent>::empty());

    assert(run_wf(m3, d3, evs.drop_first().drop_first().drop_first()));
    assert(run_wf(m2, d2, evs.drop_first().drop_first()));
    assert(run_wf(m1, d1, evs.drop_first()));
    assert(run_wf(m0, d0, evs));

    assert(run_flow(m3, d3, evs.drop_first().drop_first().drop_first()).0 == m3);
    assert(run_flow(m2, d2, evs.drop_first().drop_first()).0 == m3);
    assert(run_flow(m1, d1, evs.drop_first()).0 == m3);
    assert(run_flow(m0, d0, evs).0 == m3);
}

} // verus!
