use vstd::prelude::*;
use crate::enumerate::{get_all_procs, pids_result_of};
use crate::error::SnapError;
use crate::record::{records_view, Process, ProcessView};
use crate::reply::{ModulesReply, NameReply, PidsReply};
use crate::resolver::{base_module_of, decode_base_name, decoded_name_of, select_base_module};

verus! {

/// Where the pipeline stands: which primitive reply it waits for next,
/// or how it ended.
#[derive(Clone, Copy, Debug, PartialEq, Eq, Structural)]
pub enum Phase {
    /// Waiting for the process enumeration reply.
    AwaitPids,
    /// Waiting for the open reply for the current identifier.
    AwaitOpen,
    /// Waiting for the module enumeration reply of the open process.
    AwaitModules,
    /// Waiting for the name reply for the selected base module.
    AwaitName,
    /// Waiting for the close of the current handle.
    AwaitClose,
    /// The snapshot is complete.
    Done,
    /// The initial enumeration failed and aborted the snapshot.
    Failed(SnapError),
}

/// One primitive's reply, handed to the builder by the driver that
/// performs the operating-system calls.
#[derive(Debug)]
pub enum Event {
    PidsEnumerated(PidsReply),
    ProcessOpened { raw_handle: u64 },
    ModulesEnumerated(ModulesReply),
    NameResolved(NameReply),
    HandleClosed,
}

/// What the driver must do next; each variant carries every parameter of
/// the call, so the driver takes no decision of its own.
#[derive(Clone, Copy, Debug, PartialEq, Eq, Structural)]
pub enum Action {
    /// Open a query handle for this identifier and report the raw value.
    OpenProcess { pid: u32 },
    /// Enumerate the modules of the process behind this handle.
    EnumerateModules { handle: u64 },
    /// Resolve the base name of this module of this process.
    ResolveBaseName { handle: u64, module: u64 },
    /// Release this handle and report back.
    CloseHandle { handle: u64 },
    /// The pipeline is finished; collect the outcome from `result`.
    Complete,
}

/// The mathematical state of the builder.
#[verifier::ext_equal]
pub struct BuilderModel {
    pub phase: Phase,
    /// The identifiers kept from the enumeration, in enumeration order.
    pub pids: Seq<u32>,
    /// Index of the identifier being processed (all earlier ones are
    /// finished).
    pub next: int,
    /// The records accumulated so far, in enumeration order.
    pub records: Seq<ProcessView>,
    /// How many opens succeeded so far.
    pub opened: int,
    /// How many closes were performed so far.
    pub closed: int,
    /// The raw value of the one handle currently open (zero when none).
    pub current: u64,
    /// The base module selected for the current process (zero when none).
    pub current_module: u64,
}

/// The phases in which one identifier is being worked on.
pub open spec fn processing(p: Phase) -> bool {
    p is AwaitOpen || p is AwaitModules || p is AwaitName || p is AwaitClose
}

/// The phases in which exactly one process handle is open.
pub open spec fn holds_handle(p: Phase) -> bool {
    p is AwaitModules || p is AwaitName || p is AwaitClose
}

/// The phases in which the pipeline has ended.
pub open spec fn is_terminal(p: Phase) -> bool {
    p is Done || p is Failed
}

/// What every snapshot record satisfies: its identifier came from the
/// enumeration, and its name is non-empty.
pub open spec fn record_ok(pids: Seq<u32>, r: ProcessView) -> bool {
    pids.contains(r.pid) && r.name.len() > 0
}

/// The builder's invariant; established by `new` and preserved by every
/// `step`.
pub open spec fn inv(m: BuilderModel) -> bool {
    &&& 0 <= m.next <= m.pids.len()
    &&& (processing(m.phase) ==> m.next < m.pids.len())
    &&& m.records.len() <= m.next + (if m.phase is AwaitClose {
        1int
    } else {
        0int
    })
    &&& (forall|i: int| 0 <= i < m.records.len() ==> record_ok(m.pids, #[trigger] m.records[i]))
    &&& 0 <= m.closed
    &&& m.opened == m.closed + (if holds_handle(m.phase) {
        1int
    } else {
        0int
    })
    &&& m.opened <= m.next + (if holds_handle(m.phase) {
        1int
    } else {
        0int
    })
    &&& (holds_handle(m.phase) ==> m.current != 0)
    &&& (m.phase is AwaitPids ==> m.pids.len() == 0 && m.next == 0 && m.records.len() == 0
        && m.opened == 0)
}

/// The phase after finishing one identifier: on to the next, or done.
pub open spec fn advance_phase(next: int, len: int) -> Phase {
    if next < len {
        Phase::AwaitOpen
    } else {
        Phase::Done
    }
}

/// The action announced on entering a phase.
pub open spec fn entry_action(m: BuilderModel) -> Action {
    match m.phase {
        Phase::AwaitOpen => Action::OpenProcess { pid: m.pids[m.next] },
        Phase::AwaitModules => Action::EnumerateModules { handle: m.current },
        Phase::AwaitName => Action::ResolveBaseName { handle: m.current, module: m.current_module },
        Phase::AwaitClose => Action::CloseHandle { handle: m.current },
        _ => Action::Complete,
    }
}

/// Whether an event is the reply the builder waits for in this phase.
pub open spec fn accepts(p: Phase, ev: Event) -> bool {
    match (p, ev) {
        (Phase::AwaitPids, Event::PidsEnumerated(_)) => true,
        (Phase::AwaitOpen, Event::ProcessOpened { .. }) => true,
        (Phase::AwaitModules, Event::ModulesEnumerated(_)) => true,
        (Phase::AwaitName, Event::NameResolved(_)) => true,
        (Phase::AwaitClose, Event::HandleClosed) => true,
        _ => false,
    }
}

/// The transition relation of the pipeline: the state and announced
/// action after receiving `ev` in state `m`.  An event that is not the
/// awaited reply leaves the state unchanged.
pub open spec fn step_model(m: BuilderModel, ev: Event) -> (BuilderModel, Action) {
    match (m.phase, ev) {
        (Phase::AwaitPids, Event::PidsEnumerated(r)) => match pids_result_of(r) {
            Result::Err(e) => (BuilderModel { phase: Phase::Failed(e), ..m }, Action::Complete),
            Result::Ok(kept) => {
                let m2 = BuilderModel {
                    phase: advance_phase(0, kept.len() as int),
                    pids: kept,
                    next: 0,
                    ..m
                };
                (m2, entry_action(m2))
            },
        },
        (Phase::AwaitOpen, Event::ProcessOpened { raw_handle }) => {
            if raw_handle == 0 {
                let m2 = BuilderModel {
                    phase: advance_phase(m.next + 1, m.pids.len() as int),
                    next: m.next + 1,
                    ..m
                };
                (m2, entry_action(m2))
            } else {
                let m2 = BuilderModel {
                    phase: Phase::AwaitModules,
                    opened: m.opened + 1,
                    current: raw_handle,
                    ..m
                };
                (m2, entry_action(m2))
            }
        },
        (Phase::AwaitModules, Event::ModulesEnumerated(r)) => match base_module_of(r) {
            Result::Err(_) => {
                let m2 = BuilderModel { phase: Phase::AwaitClose, ..m };
                (m2, entry_action(m2))
            },
            Result::Ok(base) => {
                let m2 = BuilderModel { phase: Phase::AwaitName, current_module: base, ..m };
                (m2, entry_action(m2))
            },
        },
        (Phase::AwaitName, Event::NameResolved(r)) => match decoded_name_of(r) {
            Result::Err(_) => {
                let m2 = BuilderModel { phase: Phase::AwaitClose, ..m };
                (m2, entry_action(m2))
            },
            Result::Ok(cs) => {
                let m2 = BuilderModel {
                    phase: Phase::AwaitClose,
                    records: m.records.push(ProcessView { pid: m.pids[m.next], name: cs }),
                    ..m
                };
                (m2, entry_action(m2))
            },
        },
        (Phase::AwaitClose, Event::HandleClosed) => {
            let m2 = BuilderModel {
                phase: advance_phase(m.next + 1, m.pids.len() as int),
                next: m.next + 1,
                closed: m.closed + 1,
                current: 0,
                current_module: 0,
                ..m
            };
            (m2, entry_action(m2))
        },
        _ => (m, Action::Complete),
    }
}

/// The state of a fresh builder.
pub open spec fn initial_model() -> BuilderModel {
    BuilderModel {
        phase: Phase::AwaitPids,
        pids: Seq::empty(),
        next: 0,
        records: Seq::empty(),
        opened: 0,
        closed: 0,
        current: 0,
        current_module: 0,
    }
}

/// The state after feeding a whole sequence of events to a builder.
pub open spec fn run_model(m: BuilderModel, evs: Seq<Event>) -> BuilderModel
    decreases evs.len(),
{
    if evs.len() == 0 {
        m
    } else {
        run_model(step_model(m, evs[0]).0, evs.skip(1))
    }
}

/// Feeding one more event is one more transition.
pub proof fn lemma_run_snoc(m: BuilderModel, s: Seq<Event>, e: Event)
    ensures
        run_model(m, s.push(e)) == step_model(run_model(m, s), e).0,
    decreases s.len(),
{
    if s.len() == 0 {
        assert(run_model(m, s) == m);
        assert(s.push(e)[0] == e);
        assert(s.push(e).skip(1) =~= Seq::<Event>::empty());
        assert(run_model(step_model(m, e).0, s.push(e).skip(1)) == step_model(m, e).0);
        assert(run_model(m, s.push(e)) == run_model(step_model(m, s.push(e)[0]).0, s.push(e).skip(1)));
    } else {
        assert(s.push(e)[0] == s[0]);
        assert(s.push(e).skip(1) =~= s.skip(1).push(e));
        lemma_run_snoc(step_model(m, s[0]).0, s.skip(1), e);
    }
}

/// Law: a snapshot never holds more records than the enumeration
/// returned identifiers, every record's identifier appeared in that
/// enumeration, and no record carries an empty name.
pub proof fn lemma_snapshot_sound(m: BuilderModel)
    requires
        inv(m),
    ensures
        m.records.len() <= m.pids.len(),
        forall|i: int| 0 <= i < m.records.len() ==> m.pids.contains((#[trigger] m.records[i]).pid),
        forall|i: int| 0 <= i < m.records.len() ==> (#[trigger] m.records[i]).name.len() > 0,
{
}

/// Law: whenever the pipeline has ended — with a snapshot or with the
/// fatal enumeration error — every handle that was opened has been
/// closed, and at no point was more than one open.
pub proof fn lemma_no_leaked_handles(m: BuilderModel)
    requires
        inv(m),
        is_terminal(m.phase),
    ensures
        m.opened == m.closed,
{
}

/// Law: the pipeline keeps no hidden state — two runs over the very same
/// sequence of primitive replies end in the very same state, so over an
/// unchanged process set the snapshots agree record for record.
pub proof fn lemma_replay_deterministic(a: Seq<Event>, b: Seq<Event>)
    requires
        a == b,
    ensures
        run_model(initial_model(), a) == run_model(initial_model(), b),
{
}

/// The snapshot pipeline, driven by replies.
///
/// A fresh builder waits for the process enumeration reply; after every
/// reply, `step` takes all decisions and announces the one call the
/// driver must make next, until `Complete`.
pub struct SnapshotBuilder {
    pub phase: Phase,
    pub pids: Vec<u32>,
    pub next: usize,
    pub records: Vec<Process>,
    pub opened: usize,
    pub closed: usize,
    pub current: u64,
    pub current_module: u64,
}

impl View for SnapshotBuilder {
    type V = BuilderModel;

    open spec fn view(&self) -> BuilderModel {
        BuilderModel {
            phase: self.phase,
            pids: self.pids@,
            next: self.next as int,
            records: records_view(self.records@),
            opened: self.opened as int,
            closed: self.closed as int,
            current: self.current,
            current_module: self.current_module,
        }
    }
}

impl SnapshotBuilder {
    /// A fresh pipeline, waiting for the process enumeration reply.
    pub fn new() -> (s: Self)
        ensures
            s@ == initial_model(),
            inv(s@),
    {
        let s = SnapshotBuilder {
            phase: Phase::AwaitPids,
            pids: Vec::new(),
            next: 0,
            records: Vec::new(),
            opened: 0,
            closed: 0,
            current: 0,
            current_module: 0,
        };
        proof {
            assert(s@ =~= initial_model());
        }
        s
    }

    /// Whether `ev` is the reply the builder waits for now.
    pub fn accepts_event(&self, ev: &Event) -> (b: bool)
        ensures
            b == accepts(self@.phase, *ev),
    {
        match (self.phase, ev) {
            (Phase::AwaitPids, Event::PidsEnumerated(_)) => true,
            (Phase::AwaitOpen, Event::ProcessOpened { .. }) => true,
            (Phase::AwaitModules, Event::ModulesEnumerated(_)) => true,
            (Phase::AwaitName, Event::NameResolved(_)) => true,
            (Phase::AwaitClose, Event::HandleClosed) => true,
            _ => false,
        }
    }

    /// Whether the pipeline has ended.
    pub fn is_finished(&self) -> (b: bool)
        ensures
            b == is_terminal(self@.phase),
    {
        match self.phase {
            Phase::Done => true,
            Phase::Failed(_) => true,
            _ => false,
        }
    }

    /// How many opens succeeded so far.
    pub fn open_count(&self) -> (n: usize)
        ensures
            n == self@.opened,
    {
        self.opened
    }

    /// How many closes were performed so far.
    pub fn close_count(&self) -> (n: usize)
        ensures
            n == self@.closed,
    {
        self.closed
    }

    /// Takes one reply and decides what happens next: classify the reply
    /// exactly as `step_model` says, and announce the next call.
    pub fn step(&mut self, ev: &Event) -> (a: Action)
        requires
            inv(old(self)@),
            accepts(old(self)@.phase, *ev),
        ensures
            inv(final(self)@),
            final(self)@ == step_model(old(self)@, *ev).0,
            a == step_model(old(self)@, *ev).1,
    {
        match ev {
            Event::PidsEnumerated(r) => {
                match get_all_procs(r) {
                    Err(e) => {
                        self.phase = Phase::Failed(e);
                        proof {
                            assert(self@ =~= step_model(old(self)@, *ev).0);
                        }
                        Action::Complete
                    },
                    Ok(kept) => {
                        self.pids = kept;
                        self.next = 0;
                        if self.pids.len() == 0 {
                            self.phase = Phase::Done;
                            proof {
                                assert(self@ =~= step_model(old(self)@, *ev).0);
                            }
                            Action::Complete
                        } else {
                            self.phase = Phase::AwaitOpen;
                            let pid = self.pids[0];
                            proof {
                                assert(self@ =~= step_model(old(self)@, *ev).0);
                            }
                            Action::OpenProcess { pid }
                        }
                    },
                }
            },
            Event::ProcessOpened { raw_handle } => {
                let raw = *raw_handle;
                let len = self.pids.len();
                proof {
                    assert(old(self)@.phase is AwaitOpen);
                    assert(self.next < len);
                    assert(self.opened <= self.next);
                }
                if raw == 0 {
                    self.next = self.next + 1;
                    if self.next < len {
                        self.phase = Phase::AwaitOpen;
                        let pid = self.pids[self.next];
                        proof {
                            assert(self@ =~= step_model(old(self)@, *ev).0);
                        }
                        Action::OpenProcess { pid }
                    } else {
                        self.phase = Phase::Done;
                        proof {
                            assert(self@ =~= step_model(old(self)@, *ev).0);
                        }
                        Action::Complete
                    }
                } else {
                    self.opened = self.opened + 1;
                    self.current = raw;
                    self.phase = Phase::AwaitModules;
                    proof {
                        assert(self@ =~= step_model(old(self)@, *ev).0);
                    }
                    Action::EnumerateModules { handle: raw }
                }
            },
            Event::ModulesEnumerated(r) => {
                match select_base_module(r) {
                    Err(_e) => {
                        self.phase = Phase::AwaitClose;
                        proof {
                            assert(self@ =~= step_model(old(self)@, *ev).0);
                        }
                        Action::CloseHandle { handle: self.current }
                    },
                    Ok(base) => {
                        self.current_module = base;
                        self.phase = Phase::AwaitName;
                        proof {
                            assert(self@ =~= step_model(old(self)@, *ev).0);
                        }
                        Action::ResolveBaseName { handle: self.current, module: base }
                    },
                }
            },
            Event::NameResolved(r) => {
                match decode_base_name(r) {
                    Err(_e) => {
                        self.phase = Phase::AwaitClose;
                        proof {
                            assert(self@ =~= step_model(old(self)@, *ev).0);
                        }
                        Action::CloseHandle { handle: self.current }
                    },
                    Ok(s) => {
                        let pid = self.pids[self.next];
                        self.records.push(Process { pid, name: s });
                        self.phase = Phase::AwaitClose;
                        proof {
                            assert(self.pids@.contains(pid)) by {
                                assert(self.pids@[self.next as int] == pid);
                            }
                            assert(records_view(self.records@) =~= records_view(
                                old(self).records@,
                            ).push(self.records@[self.records@.len() - 1]@));
                            assert(self@ =~= step_model(old(self)@, *ev).0);
                        }
                        Action::CloseHandle { handle: self.current }
                    },
                }
            },
            Event::HandleClosed => {
                let len = self.pids.len();
                proof {
                    assert(old(self)@.phase is AwaitClose);
                    assert(self.next < len);
                    assert(self.closed < self.opened);
                    assert(self.opened <= self.next + 1);
                }
                self.closed = self.closed + 1;
                self.current = 0;
                self.current_module = 0;
                self.next = self.next + 1;
                if self.next < len {
                    self.phase = Phase::AwaitOpen;
                    let pid = self.pids[self.next];
                    proof {
                        assert(self@ =~= step_model(old(self)@, *ev).0);
                    }
                    Action::OpenProcess { pid }
                } else {
                    self.phase = Phase::Done;
                    proof {
                        assert(self@ =~= step_model(old(self)@, *ev).0);
                    }
                    Action::Complete
                }
            },
        }
    }

    /// The pipeline's outcome: the accumulated snapshot on success, the
    /// fatal enumeration error otherwise.  Every record's identifier
    /// appeared in the enumeration and every record's name is non-empty.
    pub fn result(self) -> (r: Result<Vec<Process>, SnapError>)
        requires
            inv(self@),
            is_terminal(self@.phase),
        ensures
            (match self@.phase {
                Phase::Failed(e) => (match r {
                    Result::Err(e2) => e2 == e,
                    _ => false,
                }),
                Phase::Done => (match r {
                    Result::Ok(v) => records_view(v@) == self@.records && v@.len()
                        <= self@.pids.len() && (forall|i: int|
                        0 <= i < v@.len() ==> record_ok(self@.pids, #[trigger] v@[i]@)),
                    _ => false,
                }),
                _ => false,
            }),
    {
        match self.phase {
            Phase::Failed(e) => Err(e),
            Phase::Done => {
                proof {
                    assert(forall|i: int|
                        0 <= i < self.records@.len() ==> records_view(self.records@)[i]
                            == #[trigger] self.records@[i]@);
                }
                Ok(self.records)
            },
            _ => {
                proof {
                    assert(false);
                }
                Err(SnapError::OsEnumerationFailed(0))
            },
        }
    }
}

/// Runs the whole pipeline over a pre-recorded sequence of primitive
/// replies, in order; a reply that is not the one awaited is ignored.
/// Returns `None` when the replies do not carry the pipeline to its end,
/// and otherwise exactly the outcome that `run_model` assigns to the
/// sequence — so the snapshot is a function of the replies alone.
pub fn get_procs_names(events: &Vec<Event>) -> (r: Option<Result<Vec<Process>, SnapError>>)
    ensures
        inv(run_model(initial_model(), events@)),
        (match r {
            Option::None => !is_terminal(run_model(initial_model(), events@).phase),
            Option::Some(res) => {
                let m = run_model(initial_model(), events@);
                is_terminal(m.phase) && (match (res, m.phase) {
                    (Result::Err(e), Phase::Failed(e2)) => e == e2,
                    (Result::Ok(v), Phase::Done) => records_view(v@) == m.records && v@.len()
                        <= m.pids.len(),
                    _ => false,
                })
            },
        }),
{
    let mut b = SnapshotBuilder::new();
    proof {
        assert(events@.take(0) =~= Seq::<Event>::empty());
    }
    let n = events.len();
    let mut i: usize = 0;
    while i < n
        invariant
            i <= n,
            n == events@.len(),
            inv(b@),
            b@ == run_model(initial_model(), events@.take(i as int)),
        decreases n - i,
    {
        let ev = &events[i];
        if b.accepts_event(ev) {
            let _a = b.step(ev);
        }
        proof {
            lemma_run_snoc(initial_model(), events@.take(i as int), events@[i as int]);
            assert(events@.take(i as int).push(events@[i as int]) =~= events@.take(i + 1));
        }
        i = i + 1;
    }
    proof {
        assert(events@.take(n as int) =~= events@);
    }
    if b.is_finished() {
        Some(b.result())
    } else {
        None
    }
}

} // verus!
