//! Playback controller: the singleton audio sink slot and its protocol.
//!
//! The controller owns the one slot that may hold an active playback
//! session.  Decoding the file, creating the device sink, pausing it and
//! waiting for its end are the host's work; the controller decides, numbers
//! the sessions, and guards the slot against stale completion watchers.
//!
//! A spec-level model, [`SinkModel`], pairs the slot with the set of sinks
//! actually alive; the lemmas at the end show that every step keeps that
//! set at most a singleton, and that a watcher of a replaced session can
//! neither clear the new session's slot nor disturb it.

use vstd::prelude::*;
use vstd::set_lib::lemma_len_subset;
use crate::codec::{Event, EventKind};
use crate::text::str_concat;

verus! {

/// Why a playback operation failed.
#[derive(Debug, PartialEq, Eq)]
pub enum PlaybackError {
    /// `pause` or `stop` with nothing active.
    NoActiveSession,
    /// The audio payload could not be read or decoded.
    Decode { message: String },
    /// No output device sink could be created.
    Device { message: String },
}

impl PlaybackError {
    /// The human-readable description the host surfaces to its caller.
    pub fn message(&self) -> (r: String)
        ensures
            match self {
                PlaybackError::NoActiveSession => r@ == "No audio is currently playing"@,
                PlaybackError::Decode { message } => r@ == message@,
                PlaybackError::Device { message } => r@ == message@,
            },
    {
        match self {
            PlaybackError::NoActiveSession => "No audio is currently playing".to_owned(),
            PlaybackError::Decode { message } => message.clone(),
            PlaybackError::Device { message } => message.clone(),
        }
    }
}

/// The error for a payload file that could not be opened.
pub fn file_open_error(detail: &str) -> (e: PlaybackError)
    ensures
        (e matches PlaybackError::Decode { message } && message@ == "Error opening file: "@
            + detail@),
{
    PlaybackError::Decode { message: str_concat("Error opening file: ", detail) }
}

/// The error for a payload that could not be decoded.
pub fn decode_error(detail: &str) -> (e: PlaybackError)
    ensures
        (e matches PlaybackError::Decode { message } && message@ == "Error decoding audio: "@
            + detail@),
{
    PlaybackError::Decode { message: str_concat("Error decoding audio: ", detail) }
}

/// The error for an output device sink that could not be created.
pub fn device_error(detail: &str) -> (e: PlaybackError)
    ensures
        (e matches PlaybackError::Device { message } && message@ == "Error creating sink: "@
            + detail@),
{
    PlaybackError::Device { message: str_concat("Error creating sink: ", detail) }
}

/// The singleton owner of the playback session slot.
pub struct PlaybackController {
    slot: Option<u64>,
    next_id: u64,
}

impl PlaybackController {
    /// The slot's content: the id of the active playback session, if any.
    pub closed spec fn slot_view(&self) -> Option<u64> {
        self.slot
    }

    /// How many sessions have been started; also the next session's id.
    pub closed spec fn sinks_started(&self) -> u64 {
        self.next_id
    }

    /// A fresh controller: empty slot, no session ever started.
    pub fn new() -> (c: PlaybackController)
        ensures
            c.slot_view() is None,
            c.sinks_started() == 0,
    {
        PlaybackController { slot: None, next_id: 0 }
    }

    /// How many playback sessions have been started so far.
    pub fn sinks_count(&self) -> (n: u64)
        ensures
            n == self.sinks_started(),
    {
        self.next_id
    }

    /// Whether a playback session is currently active.
    pub fn is_active(&self) -> (b: bool)
        ensures
            b == (self.slot_view() is Some),
    {
        self.slot.is_some()
    }

    /// Records that playback started: installs a fresh session into the
    /// slot — replacing, and thereby stopping, any prior session — and
    /// returns its id for the completion watcher to carry.
    pub fn play_install(&mut self) -> (id: u64)
        requires
            old(self).sinks_started() < u64::MAX,
        ensures
            play_transition(*old(self), *final(self), id),
    {
        let id = self.next_id;
        self.next_id = self.next_id + 1;
        self.slot = Some(id);
        id
    }

    /// Decides a `pause`: an error if nothing is active, otherwise the host
    /// pauses the sink in place.  The slot never changes; the paused state
    /// lives in the sink itself.
    pub fn pause(&self) -> (r: Result<(), PlaybackError>)
        ensures
            r == (match self.slot_view() {
                Some(_) => Result::<(), PlaybackError>::Ok(()),
                None => Result::<(), PlaybackError>::Err(PlaybackError::NoActiveSession),
            }),
    {
        match self.slot {
            Some(_) => Ok(()),
            None => Err(PlaybackError::NoActiveSession),
        }
    }

    /// `stop`: clears the slot, which releases the underlying sink; an
    /// error if nothing is active.
    pub fn stop(&mut self) -> (r: Result<(), PlaybackError>)
        ensures
            stop_outcome(*old(self), *final(self), r),
    {
        match self.slot {
            Some(_) => {
                self.slot = None;
                Ok(())
            },
            None => Err(PlaybackError::NoActiveSession),
        }
    }

    /// Records that the watcher of session `watcher_id` saw its sink reach
    /// end of stream.  Returns the completion event to emit and whether the
    /// slot was cleared: it is cleared only if it still holds that same
    /// session — a watcher of a replaced session takes no action on the
    /// slot.
    pub fn on_completion(&mut self, watcher_id: u64) -> (r: (Event, bool))
        ensures
            completion_transition(*old(self), *final(self), watcher_id, r.1),
            r.0@.kind == EventKind::PlaybackDone,
            r.0@.message == "audio-playback-finished"@,
    {
        let event = Event {
            kind: EventKind::PlaybackDone,
            message: "audio-playback-finished".to_owned(),
        };
        let cleared = match self.slot {
            Some(current) => current == watcher_id,
            None => false,
        };
        if cleared {
            self.slot = None;
        }
        (event, cleared)
    }
}

/// How `play_install` changes the controller.
pub open spec fn play_transition(pre: PlaybackController, post: PlaybackController, id: u64) -> bool {
    &&& id == pre.sinks_started()
    &&& post.slot_view() == Some(id)
    &&& post.sinks_started() == pre.sinks_started() + 1
}

/// How `stop` changes the controller and what it returns.
pub open spec fn stop_outcome(
    pre: PlaybackController,
    post: PlaybackController,
    r: Result<(), PlaybackError>,
) -> bool {
    &&& post.slot_view() is None
    &&& post.sinks_started() == pre.sinks_started()
    &&& r == (match pre.slot_view() {
        Some(_) => Result::<(), PlaybackError>::Ok(()),
        None => Result::<(), PlaybackError>::Err(PlaybackError::NoActiveSession),
    })
}

/// How `on_completion` changes the controller: the slot is cleared if and
/// only if it still holds the watcher's own session.
pub open spec fn completion_transition(
    pre: PlaybackController,
    post: PlaybackController,
    watcher_id: u64,
    cleared: bool,
) -> bool {
    &&& cleared == (pre.slot_view() == Some(watcher_id))
    &&& post.slot_view() == (if cleared {
        Option::<u64>::None
    } else {
        pre.slot_view()
    })
    &&& post.sinks_started() == pre.sinks_started()
}

/// Spec-level model of the controller together with the sinks that are
/// actually alive on the device.  The set is carried only here, to state
/// and prove the singleton property.
pub struct SinkModel {
    /// The id held by the controller's slot.
    pub slot: Option<u64>,
    /// The ids of the sinks alive right now.
    pub alive: Set<u64>,
}

/// One step of the playback protocol, as the host and the device perform it.
pub enum SinkStep {
    /// `play`: a fresh sink was created and installed; the replaced sink,
    /// if any, is stopped by the replacement.
    PlayInstall { id: u64 },
    /// `pause`: the sink is paused in place.
    Pause,
    /// `stop` with an active session: the slot is cleared and its sink
    /// released.
    StopActive,
    /// `stop` with an empty slot: an error to the caller, no effect.
    StopIdle,
    /// The watcher of session `id` saw end of stream: that sink is gone,
    /// and the slot is cleared only if it still holds the same session.
    WatcherDone { id: u64 },
}

/// The initial model: empty slot, no sink alive.
pub open spec fn sink_init(w: SinkModel) -> bool {
    &&& w.slot is None
    &&& w.alive == Set::<u64>::empty()
}

/// The playback protocol's transition relation.
pub open spec fn sink_step(pre: SinkModel, step: SinkStep, post: SinkModel) -> bool {
    match step {
        SinkStep::PlayInstall { id } => {
            &&& post.slot == Some(id)
            &&& post.alive == (match pre.slot {
                Some(i) => pre.alive.remove(i).insert(id),
                None => pre.alive.insert(id),
            })
        },
        SinkStep::Pause => pre.slot is Some && post == pre,
        SinkStep::StopActive => match pre.slot {
            Some(i) => {
                &&& post.slot is None
                &&& post.alive == pre.alive.remove(i)
            },
            None => false,
        },
        SinkStep::StopIdle => pre.slot is None && post == pre,
        SinkStep::WatcherDone { id } => {
            &&& post.slot == (if pre.slot == Some(id) {
                Option::<u64>::None
            } else {
                pre.slot
            })
            &&& post.alive == pre.alive.remove(id)
        },
    }
}

/// The invariant: only the sink in the slot can be alive.
pub open spec fn sink_inv(w: SinkModel) -> bool {
    &&& w.alive.finite()
    &&& match w.slot {
        None => w.alive == Set::<u64>::empty(),
        Some(i) => w.alive.subset_of(set![i]),
    }
}

/// The invariant bounds the live sinks by one: the singleton property.
pub proof fn lemma_sink_singleton(w: SinkModel)
    requires
        sink_inv(w),
    ensures
        w.alive.len() <= 1,
{
    match w.slot {
        None => {},
        Some(i) => {
            lemma_len_subset::<u64>(w.alive, set![i]);
            assert(set![i] == Set::<u64>::empty().insert(i));
        },
    }
}

/// A fresh model satisfies the invariant.
pub proof fn lemma_sink_init_inv(w: SinkModel)
    requires
        sink_init(w),
    ensures
        sink_inv(w),
{
}

/// Singleton invariant: every step of the playback protocol preserves the
/// invariant, so after any sequence of `play`/`pause`/`stop` calls and
/// watcher completions at most one sink is alive.
pub proof fn lemma_sink_inv_preserved(pre: SinkModel, step: SinkStep, post: SinkModel)
    requires
        sink_inv(pre),
        sink_step(pre, step, post),
    ensures
        sink_inv(post),
        post.alive.len() <= 1,
{
    match step {
        SinkStep::PlayInstall { id } => {
            match pre.slot {
                Some(i) => {
                    assert(pre.alive.remove(i) =~= Set::<u64>::empty());
                    assert(post.alive.subset_of(set![id]));
                },
                None => {
                    assert(post.alive.subset_of(set![id]));
                },
            }
        },
        SinkStep::Pause => {},
        SinkStep::StopActive => {
            let i = pre.slot->0;
            assert(post.alive =~= Set::<u64>::empty());
        },
        SinkStep::StopIdle => {},
        SinkStep::WatcherDone { id } => {
            match pre.slot {
                Some(i) => {
                    if pre.slot == Some(id) {
                        assert(post.alive =~= Set::<u64>::empty());
                    } else {
                        assert(post.alive.subset_of(set![i]));
                    }
                },
                None => {
                    assert(post.alive =~= Set::<u64>::empty());
                },
            }
        },
    }
    lemma_sink_singleton(post);
}

/// `play_install` refines the model's `PlayInstall` step, whatever set of
/// sinks is alive when it runs.
pub proof fn lemma_play_refines(
    pre: PlaybackController,
    post: PlaybackController,
    id: u64,
    alive: Set<u64>,
)
    requires
        play_transition(pre, post, id),
    ensures
        sink_step(
            SinkModel { slot: pre.slot_view(), alive },
            SinkStep::PlayInstall { id },
            SinkModel {
                slot: post.slot_view(),
                alive: match pre.slot_view() {
                    Some(i) => alive.remove(i).insert(id),
                    None => alive.insert(id),
                },
            },
        ),
{
}

/// `stop` refines the model's `StopActive` or `StopIdle` step.
pub proof fn lemma_stop_refines(
    pre: PlaybackController,
    post: PlaybackController,
    r: Result<(), PlaybackError>,
    alive: Set<u64>,
)
    requires
        stop_outcome(pre, post, r),
    ensures
        sink_step(
            SinkModel { slot: pre.slot_view(), alive },
            match pre.slot_view() {
                Some(_) => SinkStep::StopActive,
                None => SinkStep::StopIdle,
            },
            SinkModel {
                slot: post.slot_view(),
                alive: match pre.slot_view() {
                    Some(i) => alive.remove(i),
                    None => alive,
                },
            },
        ),
{
}

/// `on_completion` refines the model's `WatcherDone` step.
pub proof fn lemma_completion_refines(
    pre: PlaybackController,
    post: PlaybackController,
    watcher_id: u64,
    cleared: bool,
    alive: Set<u64>,
)
    requires
        completion_transition(pre, post, watcher_id, cleared),
    ensures
        sink_step(
            SinkModel { slot: pre.slot_view(), alive },
            SinkStep::WatcherDone { id: watcher_id },
            SinkModel { slot: post.slot_view(), alive: alive.remove(watcher_id) },
        ),
{
}

/// Stale-watcher guard: starting playback `a`, then playback `b` before
/// `a`'s watcher fires, gives two distinct session ids, and `a`'s delayed
/// completion neither clears `b`'s slot nor touches it at all.
pub proof fn lemma_stale_watcher_guard(
    c0: PlaybackController,
    c1: PlaybackController,
    c2: PlaybackController,
    c3: PlaybackController,
    a: u64,
    b: u64,
    cleared: bool,
)
    requires
        play_transition(c0, c1, a),
        play_transition(c1, c2, b),
        completion_transition(c2, c3, a, cleared),
    ensures
        a != b,
        !cleared,
        c3.slot_view() == Some(b),
{
}

/// Stop settles the controller: after one `stop`, a second `stop` reports
/// `NoActiveSession` and leaves the controller exactly as the first left
/// it.
pub proof fn lemma_stop_settles(
    c0: PlaybackController,
    c1: PlaybackController,
    c2: PlaybackController,
    r1: Result<(), PlaybackError>,
    r2: Result<(), PlaybackError>,
)
    requires
        stop_outcome(c0, c1, r1),
        stop_outcome(c1, c2, r2),
    ensures
        r2 == Result::<(), PlaybackError>::Err(PlaybackError::NoActiveSession),
        c2.slot_view() == c1.slot_view(),
        c2.sinks_started() == c1.sinks_started(),
{
}

} // verus!
