//! Process session manager: the singleton worker slot and its protocol.
//!
//! The manager owns the one slot that may hold a live worker session.  It
//! never performs I/O itself: each public operation either updates the slot
//! or returns a decision — a spawn request to perform, a payload to write, a
//! process id to kill — which the host carries out.  The host reports spawn
//! success back through [`SessionManager::install`] and a failed pipe write
//! through [`SessionManager::on_write_failure`]; spawn failures leave the
//! slot untouched.
//!
//! A spec-level model, [`WorkerModel`], pairs the slot with the set of worker
//! processes actually alive; the lemmas at the end show that every step of
//! the protocol keeps that set at most a singleton, and that the exec
//! operations refine the model's steps.

use vstd::prelude::*;
use vstd::set_lib::lemma_len_subset;
use crate::codec::{Event, EventKind};
use crate::paths::EnvPaths;
use crate::text::str_concat;

verus! {

/// Everything the host needs to spawn one worker process.
#[derive(Debug)]
pub struct SpawnRequest {
    /// The interpreter to run.
    pub program: String,
    /// Its arguments: the unbuffered flag, the worker script, the command.
    pub args: Vec<String>,
    /// Name of the environment variable that disables output buffering.
    pub env_key: String,
    /// Its value.
    pub env_val: String,
    /// The working directory for the worker.
    pub working_dir: String,
}

/// `r` asks for the worker to be spawned as the protocol fixes it:
/// `<interpreter> -u <worker-script> <command>`, unbuffered, in the
/// application directory.
pub open spec fn spawn_request_spec(r: SpawnRequest, paths: EnvPaths, command: Seq<char>) -> bool {
    &&& r.program@ == paths.python@
    &&& r.args@.len() == 3
    &&& r.args@[0]@ == "-u"@
    &&& r.args@[1]@ == paths.main_py@
    &&& r.args@[2]@ == command
    &&& r.env_key@ == "PYTHONUNBUFFERED"@
    &&& r.env_val@ == "1"@
    &&& r.working_dir@ == paths.temp_dir@
}

/// Builds the spawn request for `command`.
pub fn spawn_request(paths: &EnvPaths, command: &str) -> (r: SpawnRequest)
    ensures
        spawn_request_spec(r, *paths, command@),
{
    let mut args: Vec<String> = Vec::new();
    args.push("-u".to_owned());
    args.push(paths.main_py.clone());
    args.push(command.to_owned());
    SpawnRequest {
        program: paths.python.clone(),
        args,
        env_key: "PYTHONUNBUFFERED".to_owned(),
        env_val: "1".to_owned(),
        working_dir: paths.temp_dir.clone(),
    }
}

/// The manager's record of one installed worker session.
#[derive(Clone, Copy, PartialEq, Eq, Debug, Structural)]
pub struct WorkerHandle {
    /// The session's number, counted from zero.
    pub id: u64,
    /// Whether the session's input channel is available for writes.
    pub input_open: bool,
}

/// A worker process could not be spawned.
#[derive(Debug)]
pub struct SpawnError {
    /// Human-readable description of the failure.
    pub message: String,
}

/// The error and the event that report one spawn failure, built from the
/// OS's description of it.  Both carry the same message; the event goes to
/// the event sink, the error back to the caller.
pub fn on_spawn_failure(detail: &str) -> (r: (SpawnError, Event))
    ensures
        r.0.message@ == "Failed to start Python process: "@ + detail@,
        r.1@.kind == EventKind::ErrorChannel,
        r.1@.message == r.0.message@,
{
    let message = str_concat("Failed to start Python process: ", detail);
    let event_message = message.clone();
    (SpawnError { message }, Event { kind: EventKind::ErrorChannel, message: event_message })
}

/// What a `send` does: write to the current session, or respawn with the
/// command as the new worker's startup argument.
#[derive(Debug)]
pub enum SendStep {
    /// Write `payload` to the current session's input channel.
    Write { payload: String },
    /// There is no usable session: spawn afresh with this request.
    Respawn { request: SpawnRequest },
}

/// The singleton owner of the worker session slot.
pub struct SessionManager {
    slot: Option<WorkerHandle>,
    next_id: u64,
}

impl SessionManager {
    /// The slot's content.
    pub closed spec fn slot_view(&self) -> Option<WorkerHandle> {
        self.slot
    }

    /// How many sessions have been installed; also the next session's id.
    pub closed spec fn sessions_started(&self) -> u64 {
        self.next_id
    }

    /// A fresh manager: empty slot, no session ever started.
    pub fn new() -> (m: SessionManager)
        ensures
            m.slot_view() is None,
            m.sessions_started() == 0,
    {
        SessionManager { slot: None, next_id: 0 }
    }

    /// Whether a session is currently installed.
    pub fn has_session(&self) -> (b: bool)
        ensures
            b == (self.slot_view() is Some),
    {
        self.slot.is_some()
    }

    /// How many sessions have been installed so far.
    pub fn sessions_count(&self) -> (n: u64)
        ensures
            n == self.sessions_started(),
    {
        self.next_id
    }

    /// The id of the currently installed session, if any.
    pub fn current_session(&self) -> (r: Option<u64>)
        ensures
            r == slot_id(self.slot_view()),
    {
        match self.slot {
            Some(h) => Some(h.id),
            None => None,
        }
    }

    /// What `ensureRunning(command)` must do now: nothing if a session is
    /// installed, otherwise spawn the worker with `command` as its startup
    /// argument.
    pub fn ensure_step(&self, paths: &EnvPaths, command: &str) -> (r: Option<SpawnRequest>)
        ensures
            ensure_decision(*self, *paths, command@, r),
    {
        match &self.slot {
            Some(_) => None,
            None => Some(spawn_request(paths, command)),
        }
    }

    /// What `send(command)` must do now: write `command` and a newline to
    /// the current session if one with an open input channel is installed,
    /// otherwise respawn with `command` as the startup argument.  No write
    /// is ever decided against a session whose channel is closed.
    pub fn send_step(&self, paths: &EnvPaths, command: &str) -> (step: SendStep)
        ensures
            send_decision(*self, *paths, command@, step),
    {
        match &self.slot {
            Some(h) => {
                if h.input_open {
                    SendStep::Write { payload: str_concat(command, "\n") }
                } else {
                    SendStep::Respawn { request: spawn_request(paths, command) }
                }
            },
            None => SendStep::Respawn { request: spawn_request(paths, command) },
        }
    }

    /// Records that the spawn the manager asked for succeeded: installs the
    /// fresh session into the empty slot and returns its id.  The slot must
    /// have been checked (and, after a write failure, cleared) first: the
    /// manager never installs over a live session.
    pub fn install(&mut self, input_open: bool) -> (id: u64)
        requires
            old(self).slot_view() is None,
            old(self).sessions_started() < u64::MAX,
        ensures
            install_transition(*old(self), *final(self), id, input_open),
    {
        let id = self.next_id;
        self.next_id = self.next_id + 1;
        self.slot = Some(WorkerHandle { id, input_open });
        id
    }

    /// Records that a write against the current session failed: the session
    /// is unusable, so the slot is cleared, and the failed command becomes
    /// the startup argument of the spawn request returned.
    pub fn on_write_failure(&mut self, paths: &EnvPaths, command: &str) -> (request: SpawnRequest)
        requires
            old(self).slot_view() is Some,
        ensures
            write_failure_transition(*old(self), *final(self)),
            spawn_request_spec(request, *paths, command@),
    {
        self.slot = None;
        spawn_request(paths, command)
    }

    /// Takes and clears the slot; returns the id of the session to kill, if
    /// one was installed.  A no-op on an empty slot, never an error.
    pub fn stop(&mut self) -> (killed: Option<u64>)
        ensures
            stop_transition(*old(self), *final(self), killed),
    {
        let killed = match self.slot {
            Some(h) => Some(h.id),
            None => None,
        };
        self.slot = None;
        killed
    }
}

/// The id inside a slot, forgetting the channel flag.
pub open spec fn slot_id(slot: Option<WorkerHandle>) -> Option<u64> {
    match slot {
        Some(h) => Some(h.id),
        None => None,
    }
}

/// A session with an open input channel is installed.
pub open spec fn usable_session(m: SessionManager) -> bool {
    match m.slot_view() {
        Some(h) => h.input_open,
        None => false,
    }
}

/// What `ensure_step` decides.
pub open spec fn ensure_decision(
    m: SessionManager,
    paths: EnvPaths,
    command: Seq<char>,
    r: Option<SpawnRequest>,
) -> bool {
    match r {
        None => m.slot_view() is Some,
        Some(request) => m.slot_view() is None && spawn_request_spec(request, paths, command),
    }
}

/// What `send_step` decides.
pub open spec fn send_decision(
    m: SessionManager,
    paths: EnvPaths,
    command: Seq<char>,
    step: SendStep,
) -> bool {
    match step {
        SendStep::Write { payload } => usable_session(m) && payload@ == command + "\n"@,
        SendStep::Respawn { request } => !usable_session(m) && spawn_request_spec(
            request,
            paths,
            command,
        ),
    }
}

/// How `install` changes the manager.
pub open spec fn install_transition(
    pre: SessionManager,
    post: SessionManager,
    id: u64,
    input_open: bool,
) -> bool {
    &&& pre.slot_view() is None
    &&& id == pre.sessions_started()
    &&& post.slot_view() == Some(WorkerHandle { id, input_open })
    &&& post.sessions_started() == pre.sessions_started() + 1
}

/// How `on_write_failure` changes the manager.
pub open spec fn write_failure_transition(pre: SessionManager, post: SessionManager) -> bool {
    &&& pre.slot_view() is Some
    &&& post.slot_view() is None
    &&& post.sessions_started() == pre.sessions_started()
}

/// How `stop` changes the manager and what it reports to kill.
pub open spec fn stop_transition(
    pre: SessionManager,
    post: SessionManager,
    killed: Option<u64>,
) -> bool {
    &&& post.slot_view() is None
    &&& post.sessions_started() == pre.sessions_started()
    &&& killed == slot_id(pre.slot_view())
}

/// Spec-level model of the manager together with the worker processes that
/// are actually alive.  The manager cannot observe `alive` — a worker may
/// exit silently at any time — so `alive` is carried only here, to state
/// and prove the singleton property.
pub struct WorkerModel {
    /// The id held by the manager's slot.
    pub slot: Option<u64>,
    /// The ids of the worker processes alive right now.
    pub alive: Set<u64>,
}

/// One step of the protocol, as the host and the OS perform it.
pub enum WorkerStep {
    /// A spawn the manager decided succeeded and was installed; the slot was
    /// empty when it was decided.
    SpawnInstall { id: u64 },
    /// A spawn failed; nothing was installed.
    SpawnFail,
    /// A write to the current session succeeded.
    WriteOk,
    /// A write to the current session failed.  A failed write witnesses that
    /// the process behind the slot is no longer alive; the slot is cleared.
    WriteFail,
    /// `stop`: the slot is taken and its process, if any, is killed.
    Stop,
    /// A worker process exits on its own; the manager sees nothing.
    WorkerExit { id: u64 },
}

/// The initial model: empty slot, no worker alive.
pub open spec fn worker_init(w: WorkerModel) -> bool {
    &&& w.slot is None
    &&& w.alive == Set::<u64>::empty()
}

/// The protocol's transition relation.
pub open spec fn worker_step(pre: WorkerModel, step: WorkerStep, post: WorkerModel) -> bool {
    match step {
        WorkerStep::SpawnInstall { id } => {
            &&& pre.slot is None
            &&& post.slot == Some(id)
            &&& post.alive == pre.alive.insert(id)
        },
        WorkerStep::SpawnFail => post == pre,
        WorkerStep::WriteOk => pre.slot is Some && post == pre,
        WorkerStep::WriteFail => match pre.slot {
            Some(i) => {
                &&& !pre.alive.contains(i)
                &&& post.slot is None
                &&& post.alive == pre.alive
            },
            None => false,
        },
        WorkerStep::Stop => {
            &&& post.slot is None
            &&& post.alive == match pre.slot {
                Some(i) => pre.alive.remove(i),
                None => pre.alive,
            }
        },
        WorkerStep::WorkerExit { id } => {
            &&& post.slot == pre.slot
            &&& post.alive == pre.alive.remove(id)
        },
    }
}

/// The invariant: only the process in the slot can be alive.
pub open spec fn worker_inv(w: WorkerModel) -> bool {
    &&& w.alive.finite()
    &&& match w.slot {
        None => w.alive == Set::<u64>::empty(),
        Some(i) => w.alive.subset_of(set![i]),
    }
}

/// The invariant bounds the live workers by one: the singleton property.
pub proof fn lemma_worker_singleton(w: WorkerModel)
    requires
        worker_inv(w),
    ensures
        w.alive.len() <= 1,
{
    match w.slot {
        None => {},
        Some(i) => {
            lemma_len_subset::<u64>(w.alive, set![i]);
            assert(set![i] == Set::<u64>::empty().insert(i));
        },
    }
}

/// A fresh model satisfies the invariant.
pub proof fn lemma_worker_init_inv(w: WorkerModel)
    requires
        worker_init(w),
    ensures
        worker_inv(w),
{
}

/// Singleton invariant: every step of the protocol preserves the invariant,
/// so after any sequence of `ensureRunning`/`send`/`stop` calls — and any
/// silent worker exits between them — at most one worker process is alive.
pub proof fn lemma_worker_inv_preserved(pre: WorkerModel, step: WorkerStep, post: WorkerModel)
    requires
        worker_inv(pre),
        worker_step(pre, step, post),
    ensures
        worker_inv(post),
        post.alive.len() <= 1,
{
    match step {
        WorkerStep::SpawnInstall { id } => {
            assert(post.alive.subset_of(set![id]));
        },
        WorkerStep::SpawnFail => {},
        WorkerStep::WriteOk => {},
        WorkerStep::WriteFail => {
            let i = pre.slot->0;
            assert(post.alive == Set::<u64>::empty()) by {
                assert forall|x: u64| !post.alive.contains(x) by {
                    if post.alive.contains(x) {
                        assert(pre.alive.subset_of(set![i]));
                    }
                }
                assert(post.alive =~= Set::<u64>::empty());
            }
        },
        WorkerStep::Stop => {
            match pre.slot {
                Some(i) => {
                    assert(post.alive =~= Set::<u64>::empty());
                },
                None => {},
            }
        },
        WorkerStep::WorkerExit { id } => {
            match pre.slot {
                Some(i) => {
                    assert(post.alive.subset_of(set![i]));
                },
                None => {
                    assert(post.alive =~= Set::<u64>::empty());
                },
            }
        },
    }
    lemma_worker_singleton(post);
}

/// `install` refines the model's `SpawnInstall` step, whatever set of
/// workers is alive when it runs.
pub proof fn lemma_install_refines(
    pre: SessionManager,
    post: SessionManager,
    id: u64,
    input_open: bool,
    alive: Set<u64>,
)
    requires
        install_transition(pre, post, id, input_open),
    ensures
        worker_step(
            WorkerModel { slot: slot_id(pre.slot_view()), alive },
            WorkerStep::SpawnInstall { id },
            WorkerModel { slot: slot_id(post.slot_view()), alive: alive.insert(id) },
        ),
{
}

/// `on_write_failure` refines the model's `WriteFail` step: the failed
/// write witnesses that the installed process is not alive.
pub proof fn lemma_write_failure_refines(
    pre: SessionManager,
    post: SessionManager,
    alive: Set<u64>,
)
    requires
        write_failure_transition(pre, post),
        match slot_id(pre.slot_view()) {
            Some(i) => !alive.contains(i),
            None => false,
        },
    ensures
        worker_step(
            WorkerModel { slot: slot_id(pre.slot_view()), alive },
            WorkerStep::WriteFail,
            WorkerModel { slot: slot_id(post.slot_view()), alive },
        ),
{
}

/// `stop` refines the model's `Stop` step: the reported id is killed.
pub proof fn lemma_stop_refines(
    pre: SessionManager,
    post: SessionManager,
    killed: Option<u64>,
    alive: Set<u64>,
)
    requires
        stop_transition(pre, post, killed),
    ensures
        worker_step(
            WorkerModel { slot: slot_id(pre.slot_view()), alive },
            WorkerStep::Stop,
            WorkerModel {
                slot: slot_id(post.slot_view()),
                alive: match killed {
                    Some(i) => alive.remove(i),
                    None => alive,
                },
            },
        ),
{
}

/// Respawn on failure: a `send` against a session whose input channel is
/// closed decides exactly one fresh spawn, carrying the command as the new
/// worker's startup argument, and no write is attempted against the dead
/// channel.
pub proof fn lemma_respawn_on_closed_channel(
    m: SessionManager,
    paths: EnvPaths,
    command: Seq<char>,
    step: SendStep,
)
    requires
        send_decision(m, paths, command, step),
        match m.slot_view() {
            Some(h) => !h.input_open,
            None => false,
        },
    ensures
        step is Respawn,
        !(step is Write),
        match step {
            SendStep::Respawn { request } => spawn_request_spec(request, paths, command),
            SendStep::Write { .. } => false,
        },
{
}

/// Idempotent stop: a second `stop` in a row finds an empty slot, changes
/// nothing, and kills nothing — it never errors.
pub proof fn lemma_stop_idempotent(
    m0: SessionManager,
    m1: SessionManager,
    m2: SessionManager,
    killed1: Option<u64>,
    killed2: Option<u64>,
)
    requires
        stop_transition(m0, m1, killed1),
        stop_transition(m1, m2, killed2),
    ensures
        killed2 is None,
        m2.slot_view() == m1.slot_view(),
        m2.sessions_started() == m1.sessions_started(),
{
}

} // verus!
