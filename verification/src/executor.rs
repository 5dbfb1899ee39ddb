//! The pipeline executor, as a verified state machine.
//!
//! Spawning a process and waiting for it are operating-system calls that an
//! unverified front end must perform.  Everything that can go wrong *between*
//! those calls, though, is a matter of ordering and bookkeeping, and that is
//! what this module verifies:
//!
//! * every stage is spawn-attempted, in pipeline order, with the wiring of
//!   [`crate::wiring`] attached at spawn time;
//! * no wait is requested until every stage has been spawn-attempted, so a
//!   writer blocked on a full channel always has its reader already running
//!   (spawn-before-wait rules out backpressure deadlock);
//! * the parent's transient copy of a channel end is released at the very
//!   next spawn attempt, so by the time waiting begins the parent holds no
//!   channel end and every reader can observe end-of-stream;
//! * a stage that fails to spawn is recorded and skipped at wait time, while
//!   every stage that did spawn is still waited on;
//! * the pipeline succeeds only if every stage exited with status zero.
//!
//! The front end drives the machine in a loop: ask [`Executor::next_action`]
//! what to do, perform the one spawn or wait it names, and report what
//! happened through [`Executor::note_spawn_ok`],
//! [`Executor::note_spawn_failed`] or [`Executor::note_wait`].

use vstd::prelude::*;

use crate::stage::Stage;
use crate::wiring::{spec_wiring, wiring, Wiring};

verus! {

/// The fate of one stage, as far as the executor has driven it.
#[derive(Clone, Copy, PartialEq, Eq, Structural, Debug)]
pub enum StageStatus {
    /// Not yet spawn-attempted.
    Pending,
    /// Spawned and not yet waited on.
    Running,
    /// The spawn itself failed (program not found, permission denied).
    SpawnFailed,
    /// Waited on; the process exited with this code.
    Exited { code: i32 },
    /// Waited on, but the wait failed or the process left no exit code.
    WaitFailed,
}

/// What the front end observed when waiting on a spawned stage.
#[derive(Clone, Copy, PartialEq, Eq, Structural, Debug)]
pub enum WaitOutcome {
    /// The process exited with this code.
    Exited { code: i32 },
    /// The wait failed, or the process terminated without an exit code.
    Abnormal,
}

/// The single next step the front end must perform.
#[derive(Clone, Copy, PartialEq, Eq, Structural, Debug)]
pub enum Action {
    /// Spawn stage `index` with exactly this wiring attached at creation.
    Spawn { index: usize, wires: Wiring },
    /// Wait on the running process of stage `index`.
    Wait { index: usize },
    /// Every stage is settled; collect the report.
    Finish,
}

/// The status a wait outcome settles a stage into.
pub open spec fn status_of_outcome(o: WaitOutcome) -> StageStatus {
    match o {
        WaitOutcome::Exited { code } => StageStatus::Exited { code },
        WaitOutcome::Abnormal => StageStatus::WaitFailed,
    }
}

/// The executor's whole state.  `status` records each stage's fate;
/// `next_spawn` stages have been spawn-attempted and `next_wait` is the
/// next stage the parent must wait on (stages that never spawned are
/// skipped).  `channels_created` counts the inter-stage channels made so
/// far: each spawn attempt of a non-final stage creates the channel to its
/// successor, whether or not the program could be started.
pub struct Executor {
    pub stages: Vec<Stage>,
    pub status: Vec<StageStatus>,
    pub next_spawn: usize,
    pub next_wait: usize,
    pub channels_created: usize,
}

impl Executor {
    /// Number of stages in the pipeline.
    pub open spec fn n(self) -> int {
        self.stages@.len() as int
    }

    /// A settled stage needs nothing more from the front end.
    pub open spec fn settled(s: StageStatus) -> bool {
        s is SpawnFailed || s is Exited || s is WaitFailed
    }

    /// Stage `i` was spawned successfully (it may or may not have been
    /// waited on yet).
    pub open spec fn spawn_ok(self, i: int) -> bool {
        self.status@[i] is Running || self.status@[i] is Exited || self.status@[i] is WaitFailed
    }

    /// The first index at or after `w` whose stage is still running, or the
    /// length if none is.  The wait cursor always rests on such an index.
    pub open spec fn first_running_from(st: Seq<StageStatus>, w: int) -> int
        decreases st.len() - w,
    {
        if w < 0 || w >= st.len() {
            st.len() as int
        } else if st[w] is Running {
            w
        } else {
            Self::first_running_from(st, w + 1)
        }
    }

    /// Everything the methods preserve.
    pub open spec fn inv(self) -> bool {
        let n = self.n();
        &&& 1 <= n
        &&& self.status@.len() == n
        &&& self.next_spawn as int <= n
        &&& self.next_wait as int <= n
        &&& forall|i: int| 0 <= i < n ==> self.stages@[i].well_formed()
        &&& forall|i: int| self.next_spawn as int <= i < n ==> self.status@[i] is Pending
        &&& forall|i: int|
            0 <= i < self.next_spawn as int ==> !(self.status@[i] is Pending)
        // No wait happens, and so no stage is settled by a wait, until every
        // stage has been spawn-attempted.
        &&& (self.next_spawn as int) < n ==> {
            &&& self.next_wait == 0
            &&& forall|i: int|
                0 <= i < self.next_spawn as int ==> (self.status@[i] is Running
                    || self.status@[i] is SpawnFailed)
        }
        // Once the spawn phase is over, the wait cursor separates settled
        // stages from those still owed a wait, and rests on a running stage.
        &&& self.next_spawn as int == n ==> {
            &&& forall|i: int| 0 <= i < self.next_wait as int ==> Self::settled(self.status@[i])
            &&& forall|i: int|
                self.next_wait as int <= i < n ==> (self.status@[i] is Running
                    || self.status@[i] is SpawnFailed)
            &&& self.next_wait as int == n || self.status@[self.next_wait as int] is Running
        }
        // One channel per spawn attempt of a non-final stage.
        &&& self.channels_created as int == if self.next_spawn as int <= n - 1 {
            self.next_spawn as int
        } else {
            n - 1
        }
    }

    /// All stages spawn-attempted and all spawned stages waited on.
    pub open spec fn done(self) -> bool {
        self.next_spawn as int == self.n() && self.next_wait as int == self.n()
    }

    /// Start executing `stages` as a pipeline.  The executor handles any
    /// pipeline of at least one stage; the command dispatcher only routes
    /// lines with two or more stages here.
    pub fn new(stages: Vec<Stage>) -> (e: Executor)
        requires
            stages@.len() >= 1,
            forall|i: int| 0 <= i < stages@.len() ==> stages@[i].well_formed(),
        ensures
            e.inv(),
            e.stages == stages,
            e.next_spawn == 0,
            e.next_wait == 0,
            e.channels_created == 0,
    {
        let n = stages.len();
        let mut status: Vec<StageStatus> = Vec::new();
        let mut i: usize = 0;
        while i < n
            invariant
                i <= n,
                status@.len() == i as int,
                forall|k: int| 0 <= k < i as int ==> status@[k] is Pending,
            decreases n - i,
        {
            status.push(StageStatus::Pending);
            i = i + 1;
        }
        Executor { stages, status, next_spawn: 0, next_wait: 0, channels_created: 0 }
    }

    /// What the executor will ask for next, as a mathematical function of
    /// its state.
    pub open spec fn spec_next_action(self) -> Action {
        if (self.next_spawn as int) < self.n() {
            Action::Spawn {
                index: self.next_spawn,
                wires: spec_wiring(self.next_spawn as int, self.n()),
            }
        } else if (self.next_wait as int) < self.n() {
            Action::Wait { index: self.next_wait }
        } else {
            Action::Finish
        }
    }

    /// Ask for the next step: first all the spawns, in stage order and with
    /// the policy wiring, then all the waits, in stage order, skipping
    /// stages that never spawned.
    pub fn next_action(&self) -> (a: Action)
        requires
            self.inv(),
        ensures
            a == self.spec_next_action(),
            (a is Spawn) ==> (a->Spawn_index as int) < self.n() && a->Spawn_index
                == self.next_spawn && a->Spawn_wires == spec_wiring(
                self.next_spawn as int,
                self.n(),
            ),
            (a is Wait) ==> self.next_spawn as int == self.n() && a->Wait_index == self.next_wait
                && self.status@[a->Wait_index as int] is Running,
            (a is Finish) <==> self.done(),
    {
        let n = self.stages.len();
        if self.next_spawn < n {
            Action::Spawn { index: self.next_spawn, wires: wiring(self.next_spawn, n) }
        } else if self.next_wait < n {
            Action::Wait { index: self.next_wait }
        } else {
            Action::Finish
        }
    }

    /// Advance the wait cursor past stages that never spawned: there is no
    /// process to wait on for them.
    fn advance_wait(&mut self)
        requires
            old(self).status@.len() == old(self).stages@.len(),
            old(self).next_wait as int <= old(self).status@.len(),
        ensures
            final(self).stages == old(self).stages,
            final(self).status == old(self).status,
            final(self).next_spawn == old(self).next_spawn,
            final(self).channels_created == old(self).channels_created,
            final(self).next_wait as int == Self::first_running_from(
                old(self).status@,
                old(self).next_wait as int,
            ),
    {
        let n = self.status.len();
        while self.next_wait < n && !is_running(self.status[self.next_wait])
            invariant
                self.stages == old(self).stages,
                self.status == old(self).status,
                self.next_spawn == old(self).next_spawn,
                self.channels_created == old(self).channels_created,
                self.next_wait as int <= n as int,
                self.status@.len() == n as int,
                Self::first_running_from(old(self).status@, old(self).next_wait as int)
                    == Self::first_running_from(self.status@, self.next_wait as int),
            decreases n - self.next_wait,
        {
            self.next_wait = self.next_wait + 1;
        }
    }

    /// Record that the spawn of stage `next_spawn` succeeded.  The channel
    /// to the next stage (if any) now exists; the parent's copy of the
    /// channel end coming from the previous stage has been handed over.
    pub fn note_spawn_ok(&mut self)
        requires
            old(self).inv(),
            (old(self).next_spawn as int) < old(self).n(),
        ensures
            final(self).inv(),
            final(self).stages == old(self).stages,
            final(self).next_spawn == old(self).next_spawn + 1,
            final(self).next_spawn as int <= final(self).n(),
            final(self).status@ == old(self).status@.update(
                old(self).next_spawn as int,
                StageStatus::Running,
            ),
            final(self).channels_created as int == old(self).channels_created as int + (
            if (old(self).next_spawn as int) < old(self).n() - 1 {
                1int
            } else {
                0int
            }),
            final(self).next_wait as int == (if final(self).next_spawn as int == final(self).n() {
                Self::first_running_from(final(self).status@, 0)
            } else {
                0int
            }),
    {
        self.record_spawn(StageStatus::Running);
    }

    /// Record that the spawn of stage `next_spawn` failed: the program was
    /// not found, permission was denied, or the operating system could not
    /// set the process up.  Channels are made inside the spawn call, when
    /// the piped end is attached, so the attempt is charged with the
    /// channel to the next stage, and both of the parent's copies of its
    /// ends are closed with the failed attempt: the downstream stage will
    /// observe immediate end-of-input.  Later stages are still spawned and
    /// every spawned stage is still waited on.
    pub fn note_spawn_failed(&mut self)
        requires
            old(self).inv(),
            (old(self).next_spawn as int) < old(self).n(),
        ensures
            final(self).inv(),
            final(self).stages == old(self).stages,
            final(self).next_spawn == old(self).next_spawn + 1,
            final(self).next_spawn as int <= final(self).n(),
            final(self).status@ == old(self).status@.update(
                old(self).next_spawn as int,
                StageStatus::SpawnFailed,
            ),
            final(self).channels_created as int == old(self).channels_created as int + (
            if (old(self).next_spawn as int) < old(self).n() - 1 {
                1int
            } else {
                0int
            }),
            final(self).next_wait as int == (if final(self).next_spawn as int == final(self).n() {
                Self::first_running_from(final(self).status@, 0)
            } else {
                0int
            }),
    {
        self.record_spawn(StageStatus::SpawnFailed);
    }

    /// Shared body of the two spawn notifications.
    fn record_spawn(&mut self, st: StageStatus)
        requires
            old(self).inv(),
            (old(self).next_spawn as int) < old(self).n(),
            st is Running || st is SpawnFailed,
        ensures
            final(self).inv(),
            final(self).stages == old(self).stages,
            final(self).next_spawn == old(self).next_spawn + 1,
            final(self).status@ == old(self).status@.update(old(self).next_spawn as int, st),
            final(self).channels_created as int == old(self).channels_created as int + (
            if (old(self).next_spawn as int) < old(self).n() - 1 {
                1int
            } else {
                0int
            }),
            final(self).next_wait as int == (if final(self).next_spawn as int == final(self).n() {
                Self::first_running_from(final(self).status@, 0)
            } else {
                0int
            }),
    {
        let n = self.stages.len();
        let i = self.next_spawn;
        self.status.set(i, st);
        self.next_spawn = i + 1;
        if i < n - 1 {
            self.channels_created = self.channels_created + 1;
        }
        if self.next_spawn == n {
            self.advance_wait();
            proof {
                Self::lemma_first_running_from(self.status@, 0);
            }
        }
    }

    /// Record the outcome of waiting on stage `next_wait`, which the
    /// invariant guarantees is running, then move the cursor to the next
    /// running stage.
    pub fn note_wait(&mut self, outcome: WaitOutcome)
        requires
            old(self).inv(),
            old(self).next_spawn as int == old(self).n(),
            (old(self).next_wait as int) < old(self).n(),
        ensures
            final(self).inv(),
            final(self).stages == old(self).stages,
            final(self).next_spawn == old(self).next_spawn,
            final(self).channels_created == old(self).channels_created,
            final(self).status@ == old(self).status@.update(
                old(self).next_wait as int,
                status_of_outcome(outcome),
            ),
            final(self).next_wait as int == Self::first_running_from(
                final(self).status@,
                old(self).next_wait as int + 1,
            ),
    {
        let i = self.next_wait;
        let st = match outcome {
            WaitOutcome::Exited { code } => StageStatus::Exited { code },
            WaitOutcome::Abnormal => StageStatus::WaitFailed,
        };
        self.status.set(i, st);
        self.next_wait = i + 1;
        self.advance_wait();
        proof {
            Self::lemma_first_running_from(self.status@, old(self).next_wait as int + 1);
        }
    }

    /// The pipeline as a whole succeeded: every stage spawned, was waited
    /// on, and exited with status zero.
    pub open spec fn spec_all_succeeded(self) -> bool {
        forall|i: int| 0 <= i < self.n() ==> self.status@[i] == (StageStatus::Exited { code: 0i32 })
    }

    /// Aggregate the per-stage outcomes: success only if every stage exited
    /// with status zero; any spawn failure, wait failure or non-zero exit
    /// makes the whole pipeline a failure.
    pub fn all_succeeded(&self) -> (r: bool)
        requires
            self.inv(),
            self.done(),
        ensures
            r == self.spec_all_succeeded(),
    {
        let n = self.status.len();
        let mut i: usize = 0;
        while i < n
            invariant
                i <= n,
                self.status@.len() == n as int,
                self.stages@.len() == n as int,
                forall|k: int| 0 <= k < i as int ==> self.status@[k] == (StageStatus::Exited {
                    code: 0i32,
                }),
            decreases n - i,
        {
            if !(self.status[i] == (StageStatus::Exited { code: 0i32 })) {
                assert(self.status@[i as int] != (StageStatus::Exited { code: 0i32 }));
                return false;
            }
            i = i + 1;
        }
        true
    }

    /// The parent still holds the read end of the channel out of stage `j`.
    /// It receives that end when stage `j` spawns successfully with its
    /// output routed to a channel, and hands it over (into stage `j + 1`'s
    /// input, or closing it if that spawn fails) at the very next spawn
    /// attempt.  The write end never rests with the parent at all: it is
    /// created inside the spawn call and either inherited by the child or
    /// closed with a failed attempt.
    pub open spec fn parent_holds_read_end(self, j: int) -> bool {
        &&& 0 <= j < self.n() - 1
        &&& self.spawn_ok(j)
        &&& self.next_spawn as int == j + 1
    }

    /// Close-after-handoff: at any instant the parent holds at most one
    /// channel end, the one produced by the most recent successful spawn.
    pub proof fn lemma_at_most_one_end_held(e: Executor, j: int, k: int)
        requires
            e.inv(),
            e.parent_holds_read_end(j),
            e.parent_holds_read_end(k),
        ensures
            j == k,
    {
    }

    /// Resource cleanup: the moment the spawn phase is over — so before the
    /// first wait begins, and at completion — the parent holds no channel
    /// end, and every downstream reader can observe end-of-stream.
    pub proof fn lemma_no_end_held_when_waiting(e: Executor)
        requires
            e.inv(),
            e.next_spawn as int == e.n(),
        ensures
            forall|j: int| !e.parent_holds_read_end(j),
    {
    }

    /// Spawn-phase totals: once every stage has been spawn-attempted,
    /// exactly `n - 1` channels have been created and every one of the `n`
    /// stages has left the pending state, whatever the stages contained.
    pub proof fn lemma_spawn_phase_totals(e: Executor)
        requires
            e.inv(),
            e.next_spawn as int == e.n(),
        ensures
            e.channels_created as int == e.n() - 1,
            forall|i: int| 0 <= i < e.n() ==> !(e.status@[i] is Pending),
    {
    }

    /// Spawn-before-wait: the executor never asks the front end to wait on
    /// any stage until every stage has been spawn-attempted.  Waiting only
    /// observes processes that are already running independently, so a
    /// writer blocked on a full channel always has its reader spawned, and
    /// out-of-order completion cannot deadlock the pipeline.
    pub proof fn lemma_no_wait_before_spawn_complete(e: Executor)
        requires
            e.inv(),
            e.spec_next_action() is Wait,
        ensures
            e.next_spawn as int == e.n(),
    {
    }

    /// Where the wait cursor comes to rest: every stage it passes over is
    /// not running, and it stops on a running stage if one remains.
    pub proof fn lemma_first_running_from(st: Seq<StageStatus>, w: int)
        requires
            0 <= w <= st.len(),
        ensures
            w <= Self::first_running_from(st, w) <= st.len(),
            forall|j: int| w <= j < Self::first_running_from(st, w) ==> !(st[j] is Running),
            Self::first_running_from(st, w) < st.len() ==> st[Self::first_running_from(
                st,
                w,
            )] is Running,
        decreases st.len() - w,
    {
        if w < st.len() && !(st[w] is Running) {
            Self::lemma_first_running_from(st, w + 1);
        }
    }
}

/// Whether a stage is currently running.
fn is_running(s: StageStatus) -> (b: bool)
    ensures
        b == (s is Running),
{
    match s {
        StageStatus::Running => true,
        _ => false,
    }
}

} // verus!
