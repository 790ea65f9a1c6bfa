//! Coordinator task manager: bounds concurrent use of the one shared
//! coordinator handle, supersedes stale queued work when newer work arrives,
//! and enforces a reference-counted shutdown protocol.
//!
//! The manager is a state machine over admitted units of work. The
//! surrounding runtime performs the actual scheduling, the backend call and
//! the cancellation signal; it reports each of those events here, and every
//! decision the manager makes about them is verified.

use vstd::prelude::*;

use crate::errors::{CoordinatorManagerError, Error};

verus! {

/// How many units may hold an admission permit, and so use the shared
/// coordinator handle, at once.
pub const N_PARALLEL: usize = 2;

/// Correlation metadata attached to an in-flight unit of work.
#[derive(Debug, Clone, PartialEq, Eq)]
pub struct MetaInner {
    pub sequence_number: i64,
}

/// An application error tagged with the optional correlation metadata of the
/// unit that produced it.
pub type TaggedError = (Error, Option<MetaInner>);

/// What a unit's abnormal termination carried: a textual payload when one
/// could be extracted, or nothing identifiable.
#[derive(Debug, Clone, PartialEq, Eq)]
pub enum PanicPayload {
    Text(String),
    Unknown,
}

/// Why the runtime reported a unit as terminated without a result: it was
/// cancelled cooperatively, or it terminated abnormally.
#[derive(Debug, Clone, PartialEq, Eq)]
pub enum JoinFault {
    Cancelled,
    Panicked(PanicPayload),
}

/// The completion shape of a unit of work.
#[derive(Debug, Clone, PartialEq, Eq)]
pub enum FinishKind {
    /// The unit ran and delivered its response.
    Success,
    /// The unit ran and failed with an application error.
    AppError(Error, Option<MetaInner>),
    /// The unit was cancelled before delivering anything.
    Cancelled,
    /// The unit terminated abnormally.
    Panicked(PanicPayload),
}

/// Where a unit of work stands in its lifecycle.
#[derive(Debug, Clone, Copy, PartialEq, Eq)]
pub enum UnitState {
    /// Admitted and holding a clone of the coordinator handle, waiting for an
    /// admission permit.
    Queued,
    /// Holding a permit and executing against the coordinator handle.
    /// Cancellation of a running unit is only advisory: the flag records that
    /// it was requested.
    Running { cancel_requested: bool },
    /// Ended; its permit and handle clone are released, and its completion
    /// waits to be reaped.
    Finished,
    /// Ended and reaped.
    Reaped,
}

/// One admitted unit of work. `ran` records whether the unit ever held a
/// permit, i.e. whether its backend call could have started.
#[derive(Debug, Clone, Copy, PartialEq, Eq)]
pub struct Unit {
    pub state: UnitState,
    pub ran: bool,
}

/// A completion waiting to be reaped, in completion order.
#[derive(Debug, Clone, PartialEq, Eq)]
pub struct Completion {
    pub id: usize,
    pub kind: FinishKind,
}

/// Whether a unit currently holds an admission permit.
pub open spec fn is_active(u: Unit) -> bool {
    u.state is Running
}

/// Whether a unit currently holds a clone of the shared coordinator handle.
pub open spec fn is_holder(u: Unit) -> bool {
    u.state is Queued || u.state is Running
}

/// Consistency of a single unit: a queued unit has never run, and a running
/// unit has.
pub open spec fn unit_ok(u: Unit) -> bool {
    &&& u.state is Queued ==> !u.ran
    &&& u.state is Running ==> u.ran
}

/// The number of units holding an admission permit.
pub open spec fn count_active(s: Seq<Unit>) -> int
    decreases s.len(),
{
    if s.len() == 0 {
        0
    } else {
        count_active(s.drop_last()) + if is_active(s.last()) {
            1int
        } else {
            0int
        }
    }
}

proof fn lemma_count_active_nonneg(s: Seq<Unit>)
    ensures
        count_active(s) >= 0,
    decreases s.len(),
{
    if s.len() > 0 {
        lemma_count_active_nonneg(s.drop_last());
    }
}

proof fn lemma_count_active_push(s: Seq<Unit>, u: Unit)
    ensures
        count_active(s.push(u)) == count_active(s) + if is_active(u) {
            1int
        } else {
            0int
        },
{
    assert(s.push(u).drop_last() =~= s);
}

proof fn lemma_count_active_update(s: Seq<Unit>, i: int, u: Unit)
    requires
        0 <= i < s.len(),
    ensures
        count_active(s.update(i, u)) == count_active(s) - (if is_active(s[i]) {
            1int
        } else {
            0int
        }) + (if is_active(u) {
            1int
        } else {
            0int
        }),
    decreases s.len(),
{
    let t = s.update(i, u);
    if i == s.len() - 1 {
        assert(t.drop_last() =~= s.drop_last());
    } else {
        assert(t.drop_last() =~= s.drop_last().update(i, u));
        lemma_count_active_update(s.drop_last(), i, u);
    }
}

proof fn lemma_count_active_at_least_one(s: Seq<Unit>, i: int)
    requires
        0 <= i < s.len(),
        is_active(s[i]),
    ensures
        count_active(s) >= 1,
    decreases s.len(),
{
    if i == s.len() - 1 {
        lemma_count_active_nonneg(s.drop_last());
    } else {
        lemma_count_active_at_least_one(s.drop_last(), i);
    }
}

/// The result shape that reaping a completion reports to the caller.
pub open spec fn completion_result(k: FinishKind) -> Result<Result<(), TaggedError>, JoinFault> {
    match k {
        FinishKind::Success => Ok(Ok(())),
        FinishKind::AppError(e, m) => Ok(Err((e, m))),
        FinishKind::Cancelled => Err(JoinFault::Cancelled),
        FinishKind::Panicked(p) => Err(JoinFault::Panicked(p)),
    }
}

/// Owner of the shared coordinator handle. It admits units of work under a
/// fixed concurrency bound, keeps at most one unit "current" (admitting a new
/// one cancels the previous occupant of the supersession slot), reports
/// completions in completion order, and refuses to shut down while any unit
/// still holds a clone of the handle.
pub struct CoordinatorManager {
    /// Every unit ever admitted, indexed by its id, in admission order.
    pub units: Vec<Unit>,
    /// The supersession slot: the id of the most recently admitted unit.
    pub current: Option<usize>,
    /// Admission permits in use; the semaphore's taken count.
    pub running: usize,
    /// Completions not yet reaped, in completion order.
    pub completions: Vec<Completion>,
}

impl CoordinatorManager {
    /// Well-formedness: the supersession slot points into the unit table, the
    /// permit count matches the units that hold one and respects the bound,
    /// and completions correspond one to one with finished, unreaped units.
    pub open spec fn wf(self) -> bool {
        &&& (self.current matches Some(p) ==> (p as int) < self.units@.len())
        &&& (forall|i: int|
            0 <= i < self.units@.len() ==> unit_ok(#[trigger] self.units@[i]))
        &&& self.running as int == count_active(self.units@)
        &&& self.running <= N_PARALLEL
        &&& (forall|k: int|
            0 <= k < self.completions@.len() ==> (#[trigger] self.completions@[k].id as int)
                < self.units@.len() && self.units@[self.completions@[k].id as int].state
                is Finished)
        &&& (forall|k1: int, k2: int|
            0 <= k1 < self.completions@.len() && 0 <= k2 < self.completions@.len() && k1 != k2
                ==> #[trigger] self.completions@[k1].id != #[trigger] self.completions@[k2].id)
        &&& (forall|i: int|
            0 <= i < self.units@.len() && (#[trigger] self.units@[i].state) is Finished
                ==> exists|k: int|
                0 <= k < self.completions@.len() && (#[trigger] self.completions@[k].id as int)
                    == i)
    }

    /// Whether any admitted unit still holds a clone of the shared handle.
    pub open spec fn has_holders(self) -> bool {
        exists|i: int| 0 <= i < self.units@.len() && is_holder(#[trigger] self.units@[i])
    }

    /// Whether every admitted unit has ended and been reaped.
    pub open spec fn all_reaped(self) -> bool {
        forall|i: int| 0 <= i < self.units@.len() ==> (#[trigger] self.units@[i].state) is Reaped
    }

    /// A unit that reached its end without ever holding a permit: its backend
    /// call never started and never will.
    pub open spec fn superseded_unstarted(self, i: int) -> bool {
        &&& 0 <= i < self.units@.len()
        &&& !self.units@[i].ran
        &&& (self.units@[i].state is Finished || self.units@[i].state is Reaped)
    }

    /// A fresh manager owning the sole reference to the coordinator handle.
    pub fn new() -> (m: Self)
        ensures
            m.wf(),
            m.units@.len() == 0,
            m.current is None,
            m.running == 0,
            m.completions@.len() == 0,
            !m.has_holders(),
            m.all_reaped(),
    {
        CoordinatorManager {
            units: Vec::new(),
            current: None,
            running: 0,
            completions: Vec::new(),
        }
    }

    /// Whether the set of admitted units is empty: every unit, cancelled ones
    /// included, has ended and been reaped.
    pub fn is_empty(&self) -> (r: bool)
        ensures
            r == self.all_reaped(),
    {
        let n = self.units.len();
        let mut i: usize = 0;
        while i < n
            invariant
                n == self.units@.len(),
                i <= n,
                forall|j: int| 0 <= j < i as int ==> (#[trigger] self.units@[j].state) is Reaped,
            decreases n - i,
        {
            match self.units[i].state {
                UnitState::Reaped => {},
                _ => {
                    return false;
                },
            }
            i = i + 1;
        }
        true
    }

    /// Admits a new unit of work. The unit starts queued: it holds a clone of
    /// the coordinator handle but no permit yet. The supersession slot is
    /// replaced: a previous occupant still queued is cancelled outright and
    /// will never run; one already running is asked to cancel cooperatively.
    pub fn spawn(&mut self) -> (id: usize)
        requires
            old(self).wf(),
            old(self).units@.len() < usize::MAX,
        ensures
            final(self).wf(),
            id as int == old(self).units@.len(),
            final(self).units@.len() == old(self).units@.len() + 1,
            final(self).units@[id as int] == (Unit { state: UnitState::Queued, ran: false }),
            final(self).current == Some(id),
            final(self).running == old(self).running,
            Self::spawn_step(*old(self), *final(self), id as int),
            (old(self).current matches Some(p) && old(self).units@[p as int].state is Queued)
                ==> final(self).superseded_unstarted(old(self).current->0 as int),
    {
        let id = self.units.len();
        let prev = self.current;
        self.units.push(Unit { state: UnitState::Queued, ran: false });
        proof {
            lemma_count_active_push(
                old(self).units@,
                Unit { state: UnitState::Queued, ran: false },
            );
        }
        self.current = Some(id);
        if let Some(p) = prev {
            let ghost mid = *self;
            let pu = self.units[p];
            match pu.state {
                UnitState::Queued => {
                    self.units.set(p, Unit { state: UnitState::Finished, ran: pu.ran });
                    self.completions.push(Completion { id: p, kind: FinishKind::Cancelled });
                    proof {
                        lemma_count_active_update(
                            mid.units@,
                            p as int,
                            Unit { state: UnitState::Finished, ran: pu.ran },
                        );
                    }
                },
                UnitState::Running { cancel_requested: _ } => {
                    self.units.set(
                        p,
                        Unit { state: UnitState::Running { cancel_requested: true }, ran: pu.ran },
                    );
                    proof {
                        lemma_count_active_update(
                            mid.units@,
                            p as int,
                            Unit { state: UnitState::Running { cancel_requested: true }, ran: pu.ran },
                        );
                    }
                },
                _ => {},
            }
        }
        proof {
            let pre = *old(self);
            let post = *self;
            let n = pre.units@.len() as int;
            if pre.current is Some && pre.units@[pre.current->0 as int].state is Queued {
                let pi = pre.current->0 as int;
                assert forall|k: int| 0 <= k < pre.completions@.len() implies (
                #[trigger] pre.completions@[k].id as int) != pi by {
                    assert(pre.units@[pre.completions@[k].id as int].state is Finished);
                }
                assert forall|i: int|
                    0 <= i < post.units@.len() && (#[trigger] post.units@[i].state)
                        is Finished implies exists|k: int|
                    0 <= k < post.completions@.len() && (#[trigger] post.completions@[k].id
                        as int) == i by {
                    if i == pi {
                        assert(post.completions@[pre.completions@.len() as int].id as int == i);
                    } else {
                        assert(pre.units@[i].state is Finished);
                        let k0 = choose|k: int|
                            0 <= k < pre.completions@.len() && (
                            #[trigger] pre.completions@[k].id as int) == i;
                        assert(post.completions@[k0].id as int == i);
                    }
                }
            } else {
                assert(post.completions@ == pre.completions@);
                assert forall|i: int|
                    0 <= i < post.units@.len() && (#[trigger] post.units@[i].state)
                        is Finished implies exists|k: int|
                    0 <= k < post.completions@.len() && (#[trigger] post.completions@[k].id
                        as int) == i by {
                    assert(i < n && pre.units@[i].state is Finished);
                    let k0 = choose|k: int|
                        0 <= k < pre.completions@.len() && (#[trigger] pre.completions@[k].id
                            as int) == i;
                    assert(post.completions@[k0].id as int == i);
                }
            }
        }
        id
    }

    /// The runtime granted an admission permit to a queued unit: it begins
    /// executing the backend call. Refused when the unit is no longer queued
    /// (it was superseded) or when all permits are in use, so no more than
    /// `N_PARALLEL` units ever run at once.
    pub fn begin_unit(&mut self, id: usize) -> (started: bool)
        requires
            old(self).wf(),
            (id as int) < old(self).units@.len(),
        ensures
            final(self).wf(),
            started == (old(self).units@[id as int].state is Queued && old(self).running
                < N_PARALLEL),
            started ==> final(self).units@ == old(self).units@.update(
                id as int,
                Unit { state: UnitState::Running { cancel_requested: false }, ran: true },
            ) && final(self).running == old(self).running + 1,
            !started ==> *final(self) == *old(self),
            final(self).current == old(self).current,
            final(self).completions@ == old(self).completions@,
            Self::begin_step(*old(self), *final(self), id as int, started),
    {
        let u = self.units[id];
        match u.state {
            UnitState::Queued => {
                if self.running < N_PARALLEL {
                    self.units.set(
                        id,
                        Unit { state: UnitState::Running { cancel_requested: false }, ran: true },
                    );
                    self.running = self.running + 1;
                    proof {
                        lemma_count_active_update(
                            old(self).units@,
                            id as int,
                            Unit { state: UnitState::Running { cancel_requested: false }, ran: true },
                        );
                    }
                    true
                } else {
                    false
                }
            },
            _ => false,
        }
    }

    /// The runtime reported that a running unit ended, with the given
    /// completion shape. A cancelled completion can only be reported for a
    /// unit whose cancellation was requested. The unit's permit and its clone
    /// of the coordinator handle are released; the completion waits to be
    /// reaped.
    pub fn finish_unit(&mut self, id: usize, kind: FinishKind)
        requires
            old(self).wf(),
            (id as int) < old(self).units@.len(),
            old(self).units@[id as int].state is Running,
            kind is Cancelled ==> old(self).units@[id as int].state->cancel_requested,
        ensures
            final(self).wf(),
            final(self).units@ == old(self).units@.update(
                id as int,
                Unit { state: UnitState::Finished, ran: old(self).units@[id as int].ran },
            ),
            final(self).completions@ == old(self).completions@.push(
                Completion { id: id, kind: kind },
            ),
            final(self).running as int == old(self).running as int - 1,
            final(self).current == old(self).current,
            Self::finish_step(*old(self), *final(self), id as int, kind),
    {
        proof {
            lemma_count_active_at_least_one(old(self).units@, id as int);
        }
        let u = self.units[id];
        self.units.set(id, Unit { state: UnitState::Finished, ran: u.ran });
        self.running = self.running - 1;
        proof {
            lemma_count_active_update(
                old(self).units@,
                id as int,
                Unit { state: UnitState::Finished, ran: u.ran },
            );
        }
        self.completions.push(Completion { id, kind });
        proof {
            let pre = *old(self);
            let post = *self;
            let ii = id as int;
            assert forall|k: int| 0 <= k < pre.completions@.len() implies (
            #[trigger] pre.completions@[k].id as int) != ii by {
                assert(pre.units@[pre.completions@[k].id as int].state is Finished);
            }
            assert forall|i: int|
                0 <= i < post.units@.len() && (#[trigger] post.units@[i].state)
                    is Finished implies exists|k: int|
                0 <= k < post.completions@.len() && (#[trigger] post.completions@[k].id as int)
                    == i by {
                if i == ii {
                    assert(post.completions@[pre.completions@.len() as int].id as int == i);
                } else {
                    assert(pre.units@[i].state is Finished);
                    let k0 = choose|k: int|
                        0 <= k < pre.completions@.len() && (#[trigger] pre.completions@[k].id
                            as int) == i;
                    assert(post.completions@[k0].id as int == i);
                }
            }
        }
    }

    /// Reaps the next completion, in completion order. Returns `None` when no
    /// unit remains in the set. The three completion shapes are kept apart:
    /// success, application error with its metadata, and a join fault
    /// (cancellation or abnormal termination). The caller may only invoke
    /// this when a completion is waiting or the set is empty; otherwise the
    /// runtime would suspend until one of the two holds.
    pub fn join_next(&mut self) -> (r: Option<Result<Result<(), TaggedError>, JoinFault>>)
        requires
            old(self).wf(),
            old(self).completions@.len() > 0 || old(self).all_reaped(),
        ensures
            final(self).wf(),
            old(self).completions@.len() == 0 ==> r is None && *final(self) == *old(self),
            old(self).completions@.len() > 0 ==> {
                &&& r == Some(completion_result(old(self).completions@[0].kind))
                &&& Self::reap_step(*old(self), *final(self))
            },
    {
        if self.completions.len() == 0 {
            return None;
        }
        let c = self.completions.remove(0);
        let cid = c.id;
        let u = self.units[cid];
        self.units.set(cid, Unit { state: UnitState::Reaped, ran: u.ran });
        proof {
            lemma_count_active_update(
                old(self).units@,
                cid as int,
                Unit { state: UnitState::Reaped, ran: u.ran },
            );
        }
        let out = match c.kind {
            FinishKind::Success => Ok(Ok(())),
            FinishKind::AppError(e, m) => Ok(Err((e, m))),
            FinishKind::Cancelled => Err(JoinFault::Cancelled),
            FinishKind::Panicked(p) => Err(JoinFault::Panicked(p)),
        };
        proof {
            let pre = *old(self);
            let post = *self;
            let ci = cid as int;
            // the reaped unit's completion was the only one naming it
            assert forall|k: int| 0 <= k < post.completions@.len() implies (
            #[trigger] post.completions@[k].id as int) != ci by {
                assert(post.completions@[k] == pre.completions@[k + 1]);
                assert(pre.completions@[k + 1].id != pre.completions@[0].id);
            }
            assert forall|i: int|
                0 <= i < post.units@.len() && (#[trigger] post.units@[i].state)
                    is Finished implies exists|k: int|
                0 <= k < post.completions@.len() && (#[trigger] post.completions@[k].id as int)
                    == i by {
                assert(pre.units@[i].state is Finished);
                let k0 = choose|k: int|
                    0 <= k < pre.completions@.len() && (#[trigger] pre.completions@[k].id as int)
                        == i;
                assert(k0 != 0);
                assert(post.completions@[k0 - 1] == pre.completions@[k0]);
                assert(post.completions@[k0 - 1].id as int == i);
            }
        }
        Some(out)
    }

    /// Consumes the manager for shutdown. Fails while any admitted unit still
    /// holds a clone of the shared coordinator handle — the caller must drain
    /// completions first — and succeeds exactly when none does. On success
    /// the caller delegates to the backend's own shutdown and concludes with
    /// `conclude_shutdown`.
    pub fn shutdown(self) -> (r: Result<(), CoordinatorManagerError>)
        ensures
            r is Ok <==> !self.has_holders(),
            r is Err ==> r == Err::<(), CoordinatorManagerError>(
                CoordinatorManagerError::OutstandingCoordinatorShutdown,
            ),
    {
        let n = self.units.len();
        let mut i: usize = 0;
        while i < n
            invariant
                n == self.units@.len(),
                i <= n,
                forall|j: int| 0 <= j < i as int ==> !is_holder(#[trigger] self.units@[j]),
            decreases n - i,
        {
            match self.units[i].state {
                UnitState::Queued => {
                    return Err(CoordinatorManagerError::OutstandingCoordinatorShutdown);
                },
                UnitState::Running { .. } => {
                    return Err(CoordinatorManagerError::OutstandingCoordinatorShutdown);
                },
                _ => {},
            }
            i = i + 1;
        }
        Ok(())
    }

    /// The supersession transition: a new unit is admitted and becomes
    /// current; a previous occupant of the slot still queued is cancelled
    /// outright, one already running has its cancellation requested, and one
    /// already ended is left alone.
    pub open spec fn spawn_step(pre: Self, post: Self, id: int) -> bool {
        let n = pre.units@.len() as int;
        &&& id == n
        &&& post.units@.len() == n + 1
        &&& post.units@[n] == (Unit { state: UnitState::Queued, ran: false })
        &&& post.current == Some(id as usize)
        &&& post.running == pre.running
        &&& match pre.current {
            None => {
                &&& (forall|j: int| 0 <= j < n ==> post.units@[j] == pre.units@[j])
                &&& post.completions@ == pre.completions@
            },
            Some(p) => {
                &&& (p as int) < n
                &&& (forall|j: int|
                    0 <= j < n && j != p as int ==> post.units@[j] == pre.units@[j])
                &&& match pre.units@[p as int].state {
                    UnitState::Queued => {
                        &&& post.units@[p as int] == (Unit {
                            state: UnitState::Finished,
                            ran: pre.units@[p as int].ran,
                        })
                        &&& post.completions@ == pre.completions@.push(
                            Completion { id: p, kind: FinishKind::Cancelled },
                        )
                    },
                    UnitState::Running { cancel_requested: _ } => {
                        &&& post.units@[p as int] == (Unit {
                            state: UnitState::Running { cancel_requested: true },
                            ran: pre.units@[p as int].ran,
                        })
                        &&& post.completions@ == pre.completions@
                    },
                    _ => {
                        &&& post.units@[p as int] == pre.units@[p as int]
                        &&& post.completions@ == pre.completions@
                    },
                }
            },
        }
    }

    /// The permit-acquisition transition: a queued unit starts running when a
    /// permit is free; nothing changes otherwise.
    pub open spec fn begin_step(pre: Self, post: Self, id: int, started: bool) -> bool {
        &&& 0 <= id < pre.units@.len()
        &&& started == (pre.units@[id].state is Queued && pre.running < N_PARALLEL)
        &&& if started {
            &&& post.units@ == pre.units@.update(
                id,
                Unit { state: UnitState::Running { cancel_requested: false }, ran: true },
            )
            &&& post.running == pre.running + 1
            &&& post.current == pre.current
            &&& post.completions@ == pre.completions@
        } else {
            post == pre
        }
    }

    /// The completion transition: a running unit ends with the given shape,
    /// releasing its permit and handle clone.
    pub open spec fn finish_step(pre: Self, post: Self, id: int, kind: FinishKind) -> bool {
        &&& 0 <= id < pre.units@.len()
        &&& pre.units@[id].state is Running
        &&& (kind is Cancelled ==> pre.units@[id].state->cancel_requested)
        &&& post.units@ == pre.units@.update(
            id,
            Unit { state: UnitState::Finished, ran: pre.units@[id].ran },
        )
        &&& post.completions@ == pre.completions@.push(
            Completion { id: id as usize, kind: kind },
        )
        &&& post.running as int == pre.running as int - 1
        &&& post.current == pre.current
    }

    /// The reaping transition: the oldest waiting completion is consumed and
    /// its unit leaves the set.
    pub open spec fn reap_step(pre: Self, post: Self) -> bool {
        &&& pre.completions@.len() > 0
        &&& (pre.completions@[0].id as int) < pre.units@.len()
        &&& post.completions@ == pre.completions@.remove(0)
        &&& post.units@ == pre.units@.update(
            pre.completions@[0].id as int,
            Unit { state: UnitState::Reaped, ran: pre.units@[pre.completions@[0].id as int].ran },
        )
        &&& post.running == pre.running
        &&& post.current == pre.current
    }

    /// Any single transition of the manager.
    pub open spec fn step(pre: Self, post: Self) -> bool {
        ||| (exists|id: int| #[trigger] Self::spawn_step(pre, post, id))
        ||| (exists|id: int, started: bool| #[trigger] Self::begin_step(pre, post, id, started))
        ||| (exists|id: int, kind: FinishKind| #[trigger] Self::finish_step(pre, post, id, kind))
        ||| Self::reap_step(pre, post)
        ||| post == pre
    }
}

/// Law: in any well-formed manager state, at most `N_PARALLEL` units hold an
/// admission permit, so at most `N_PARALLEL` backend calls execute
/// concurrently. Every manager operation preserves well-formedness.
pub proof fn lemma_bounded_parallelism(m: CoordinatorManager)
    requires
        m.wf(),
    ensures
        count_active(m.units@) <= N_PARALLEL as int,
{
}

/// Law: a unit that ended without ever holding a permit — in particular one
/// superseded while it was still queued — stays that way under every manager
/// transition: it is never running and never ran, so its backend call never
/// executes.
pub proof fn lemma_superseded_never_starts(
    pre: CoordinatorManager,
    post: CoordinatorManager,
    i: int,
)
    requires
        CoordinatorManager::step(pre, post),
        pre.superseded_unstarted(i),
    ensures
        post.superseded_unstarted(i),
        !post.units@[i].ran,
        !(post.units@[i].state is Running),
{
    if exists|id: int| #[trigger] CoordinatorManager::spawn_step(pre, post, id) {
        let id = choose|id: int| #[trigger] CoordinatorManager::spawn_step(pre, post, id);
        assert(post.units@[i] == pre.units@[i]);
    } else if exists|id: int, started: bool|
        #[trigger] CoordinatorManager::begin_step(pre, post, id, started) {
        let (id, started) = choose|id: int, started: bool|
            #[trigger] CoordinatorManager::begin_step(pre, post, id, started);
        assert(post.units@[i] == pre.units@[i]);
    } else if exists|id: int, kind: FinishKind|
        #[trigger] CoordinatorManager::finish_step(pre, post, id, kind) {
        let (id, kind) = choose|id: int, kind: FinishKind|
            #[trigger] CoordinatorManager::finish_step(pre, post, id, kind);
        assert(post.units@[i] == pre.units@[i]);
    } else if CoordinatorManager::reap_step(pre, post) {
        assert(post.units@[i].ran == pre.units@[i].ran);
    } else {
        assert(post == pre);
    }
}

/// Law: once every admitted unit has completed or been cancelled and been
/// reaped, no unit holds a clone of the coordinator handle any more, so
/// `shutdown` succeeds.
pub proof fn lemma_all_reaped_no_holders(m: CoordinatorManager)
    requires
        m.all_reaped(),
    ensures
        !m.has_holders(),
{
}

/// Maps the backend's own shutdown outcome, reported by the caller after a
/// successful `CoordinatorManager::shutdown`, into the manager's error
/// taxonomy: a backend failure surfaces as the distinct `Shutdown` kind.
pub fn conclude_shutdown(delegation: Result<(), String>) -> (r: Result<
    (),
    CoordinatorManagerError,
>)
    ensures
        delegation is Ok <==> r is Ok,
        delegation matches Err(m) ==> r == Err::<(), CoordinatorManagerError>(
            CoordinatorManagerError::Shutdown { source: m },
        ),
{
    match delegation {
        Ok(()) => Ok(()),
        Err(m) => Err(CoordinatorManagerError::Shutdown { source: m }),
    }
}

} // verus!
