//! Protocol codec: turns one line of worker output into events.
//!
//! The worker tags each meaningful output line with a sentinel marker placed
//! anywhere in the line.  A line is matched against the markers in the fixed
//! priority order completion > error > progress; the first marker that occurs
//! decides the line's meaning, and a line with no marker is dropped.

use vstd::prelude::*;

verus! {

/// The channel a worker line arrived on.  Progress lines from the two
/// channels are forwarded under different event kinds.
#[derive(Clone, Copy, PartialEq, Eq, Debug, Structural)]
pub enum Channel {
    Stdout,
    Stderr,
}

/// The kind of a notification handed to the event sink.
#[derive(Clone, Copy, PartialEq, Eq, Debug, Structural)]
pub enum EventKind {
    /// A progress line read from the worker's standard output.
    Progress,
    /// A line read from the worker's standard error, or a failure of the
    /// session manager itself.
    ErrorChannel,
    /// The worker announced that its task is complete.
    Completion,
    /// The worker's output artifact is ready; the message is its path.
    ArtifactReady,
    /// The worker reported an error in the line itself.
    Error,
    /// An audio playback session reached its natural end.
    PlaybackDone,
}

/// One notification for the event sink: a kind and a payload string.
#[derive(Clone, PartialEq, Eq, Debug)]
pub struct Event {
    pub kind: EventKind,
    pub message: String,
}

/// Mathematical model of an [`Event`]: the kind and the payload characters.
pub struct EventModel {
    pub kind: EventKind,
    pub message: Seq<char>,
}

impl View for Event {
    type V = EventModel;

    open spec fn view(&self) -> EventModel {
        EventModel { kind: self.kind, message: self.message@ }
    }
}

/// The completion marker.
pub open spec fn completion_marker() -> Seq<char> {
    "LogCoQ=1002"@
}

/// The error marker.
pub open spec fn error_marker() -> Seq<char> {
    "LogCoQ=1003"@
}

/// The progress marker.
pub open spec fn progress_marker() -> Seq<char> {
    "LogCoQ=1001"@
}

/// The completion marker as a string.
pub fn completion_marker_str() -> (s: &'static str)
    ensures
        s@ == completion_marker(),
{
    "LogCoQ=1002"
}

/// The error marker as a string.
pub fn error_marker_str() -> (s: &'static str)
    ensures
        s@ == error_marker(),
{
    "LogCoQ=1003"
}

/// The progress marker as a string.
pub fn progress_marker_str() -> (s: &'static str)
    ensures
        s@ == progress_marker(),
{
    "LogCoQ=1001"
}

/// The marker `m` occurs in `l` starting at position `i`.
pub open spec fn occurs_at(l: Seq<char>, m: Seq<char>, i: int) -> bool {
    0 <= i && i + m.len() <= l.len() && l.subrange(i, i + m.len() as int) == m
}

/// The marker `m` occurs somewhere in `l`.
pub open spec fn contains_marker(l: Seq<char>, m: Seq<char>) -> bool {
    exists|i: int| occurs_at(l, m, i)
}

/// `i` is the position of the first occurrence of `m` in `l`.
pub open spec fn is_first_occurrence(l: Seq<char>, m: Seq<char>, i: int) -> bool {
    occurs_at(l, m, i) && forall|j: int| 0 <= j < i ==> !occurs_at(l, m, j)
}

/// The position of the first occurrence of `m` in `l`; meaningful only when
/// `contains_marker(l, m)` holds.
pub open spec fn first_occurrence(l: Seq<char>, m: Seq<char>) -> int {
    choose|i: int| is_first_occurrence(l, m, i)
}

/// Everything in `l` after the first occurrence of `m`.
pub open spec fn tail_after_first(l: Seq<char>, m: Seq<char>) -> Seq<char> {
    l.subrange(first_occurrence(l, m) + m.len(), l.len() as int)
}

/// Two first occurrences of the same marker are the same position.
pub proof fn lemma_first_occurrence_unique(l: Seq<char>, m: Seq<char>, i: int, j: int)
    requires
        is_first_occurrence(l, m, i),
        is_first_occurrence(l, m, j),
    ensures
        i == j,
{
    if i < j {
        assert(occurs_at(l, m, i));
    } else if j < i {
        assert(occurs_at(l, m, j));
    }
}

/// Any occurrence of `m` in `l` implies a first one, so `first_occurrence`
/// picks a position that really is the first.
pub proof fn lemma_first_occurrence_exists(l: Seq<char>, m: Seq<char>, k: int)
    requires
        occurs_at(l, m, k),
    ensures
        is_first_occurrence(l, m, first_occurrence(l, m)),
    decreases k,
{
    if forall|j: int| 0 <= j < k ==> !occurs_at(l, m, j) {
        assert(is_first_occurrence(l, m, k));
    } else {
        let j = choose|j: int| 0 <= j < k && occurs_at(l, m, j);
        lemma_first_occurrence_exists(l, m, j);
    }
}

/// Whether the marker occurs in the line starting exactly at position `i`.
fn marker_at(line: &str, marker: &str, i: usize) -> (r: bool)
    requires
        i + marker@.len() <= line@.len(),
        line@.len() <= usize::MAX,
    ensures
        r == occurs_at(line@, marker@, i as int),
{
    let m = marker.unicode_len();
    let mut j: usize = 0;
    while j < m
        invariant
            m == marker@.len(),
            i + m <= line@.len(),
            line@.len() <= usize::MAX,
            0 <= j <= m,
            forall|k: int| 0 <= k < j ==> line@[i + k] == marker@[k],
        decreases m - j,
    {
        if line.get_char(i + j) != marker.get_char(j) {
            proof {
                assert(line@.subrange(i as int, i + m as int)[j as int] == line@[i + j]);
            }
            return false;
        }
        j += 1;
    }
    proof {
        assert(line@.subrange(i as int, i + m as int) =~= marker@);
    }
    true
}

/// The position of the first occurrence of `marker` in `line`, or `None` if
/// the marker does not occur.
pub fn find_first(line: &str, marker: &str) -> (r: Option<usize>)
    requires
        marker@.len() >= 1,
    ensures
        match r {
            Some(i) => is_first_occurrence(line@, marker@, i as int),
            None => !contains_marker(line@, marker@),
        },
{
    let n = line.unicode_len();
    let m = marker.unicode_len();
    if m > n {
        return None;
    }
    let mut i: usize = 0;
    while i <= n - m
        invariant
            n == line@.len(),
            m == marker@.len(),
            1 <= m <= n,
            0 <= i <= n - m + 1,
            forall|j: int| 0 <= j < i ==> !occurs_at(line@, marker@, j),
        decreases n - i,
    {
        if marker_at(line, marker, i) {
            return Some(i);
        }
        i += 1;
    }
    proof {
        assert(forall|j: int| occurs_at(line@, marker@, j) ==> 0 <= j && j + m <= n);
        assert(forall|j: int| i <= j ==> !occurs_at(line@, marker@, j));
    }
    None
}

/// The kind under which a progress line is forwarded: lines from the error
/// channel keep their channel's kind.
pub open spec fn progress_kind(channel: Channel) -> EventKind {
    match channel {
        Channel::Stdout => EventKind::Progress,
        Channel::Stderr => EventKind::ErrorChannel,
    }
}

/// The events one worker line gives rise to.  The markers are tried in the
/// priority order completion > error > progress; the first marker that occurs
/// in the line decides, and a line with no marker yields no event.
pub open spec fn line_events(l: Seq<char>, artifact: Seq<char>, channel: Channel) -> Seq<
    EventModel,
> {
    if contains_marker(l, completion_marker()) {
        seq![
            EventModel { kind: EventKind::Completion, message: l },
            EventModel { kind: EventKind::ArtifactReady, message: artifact },
        ]
    } else if contains_marker(l, error_marker()) {
        seq![EventModel { kind: EventKind::Error, message: tail_after_first(l, error_marker()) }]
    } else if contains_marker(l, progress_marker()) {
        seq![
            EventModel {
                kind: progress_kind(channel),
                message: tail_after_first(l, progress_marker()),
            },
        ]
    } else {
        Seq::empty()
    }
}

/// The events a line of worker output gives rise to: the stateless codec.
///
/// `artifact_path` is the path of the worker's expected output artifact,
/// supplied by the caller's context; on a completion line it is carried by
/// the auxiliary artifact-ready event.
pub fn parse_line(line: &str, artifact_path: &str, channel: Channel) -> (events: Vec<Event>)
    ensures
        events@.map_values(|e: Event| e@) == line_events(line@, artifact_path@, channel),
{
    proof {
        reveal_strlit("LogCoQ=1002");
        reveal_strlit("LogCoQ=1003");
        reveal_strlit("LogCoQ=1001");
    }
    let n = line.unicode_len();
    let ghost model = line_events(line@, artifact_path@, channel);
    if find_first(line, completion_marker_str()).is_some() {
        let events = vec![
            Event { kind: EventKind::Completion, message: line.to_owned() },
            Event { kind: EventKind::ArtifactReady, message: artifact_path.to_owned() },
        ];
        proof {
            assert(events@.map_values(|e: Event| e@) =~= model);
        }
        events
    } else if let Some(i) = find_first(line, error_marker_str()) {
        let message = line.substring_char(i + error_marker_str().unicode_len(), n);
        let events = vec![Event { kind: EventKind::Error, message: message.to_owned() }];
        proof {
            lemma_first_occurrence_unique(
                line@,
                error_marker(),
                i as int,
                first_occurrence(line@, error_marker()),
            );
            assert(events@.map_values(|e: Event| e@) =~= model);
        }
        events
    } else if let Some(i) = find_first(line, progress_marker_str()) {
        let message = line.substring_char(i + progress_marker_str().unicode_len(), n);
        let kind = match channel {
            Channel::Stdout => EventKind::Progress,
            Channel::Stderr => EventKind::ErrorChannel,
        };
        let events = vec![Event { kind, message: message.to_owned() }];
        proof {
            lemma_first_occurrence_unique(
                line@,
                progress_marker(),
                i as int,
                first_occurrence(line@, progress_marker()),
            );
            assert(events@.map_values(|e: Event| e@) =~= model);
        }
        events
    } else {
        let events: Vec<Event> = Vec::new();
        proof {
            assert(events@.map_values(|e: Event| e@) =~= model);
        }
        events
    }
}

/// The event-type name under which each kind is handed to the event sink.
pub open spec fn kind_label_spec(kind: EventKind) -> Seq<char> {
    match kind {
        EventKind::Progress => "initialize_setup_processing"@,
        EventKind::ErrorChannel => "initialize_setup_error"@,
        EventKind::Completion => "initialize_setup_completed"@,
        EventKind::ArtifactReady => "tune_file_created"@,
        EventKind::Error => "error"@,
        EventKind::PlaybackDone => "play_finished"@,
    }
}

/// The event-type name of `kind` at the event sink.
pub fn kind_label(kind: EventKind) -> (s: &'static str)
    ensures
        s@ == kind_label_spec(kind),
{
    match kind {
        EventKind::Progress => "initialize_setup_processing",
        EventKind::ErrorChannel => "initialize_setup_error",
        EventKind::Completion => "initialize_setup_completed",
        EventKind::ArtifactReady => "tune_file_created",
        EventKind::Error => "error",
        EventKind::PlaybackDone => "play_finished",
    }
}

/// Codec priority: a line that carries the error marker, and not the
/// completion marker, yields exactly one event — an error event whose message
/// is everything after the first error marker.  In particular a line carrying
/// both the error and the progress marker yields no progress event.
pub proof fn lemma_codec_priority(l: Seq<char>, artifact: Seq<char>, channel: Channel)
    requires
        contains_marker(l, error_marker()),
        contains_marker(l, progress_marker()),
        !contains_marker(l, completion_marker()),
    ensures
        line_events(l, artifact, channel).len() == 1,
        line_events(l, artifact, channel)[0].kind == EventKind::Error,
        line_events(l, artifact, channel)[0].message == tail_after_first(l, error_marker()),
        is_first_occurrence(l, error_marker(), first_occurrence(l, error_marker())),
        forall|i: int|
            0 <= i < line_events(l, artifact, channel).len() ==> line_events(l, artifact, channel)[i].kind
                != progress_kind(channel),
{
    let k = choose|i: int| occurs_at(l, error_marker(), i);
    lemma_first_occurrence_exists(l, error_marker(), k);
}

/// Completion fan-out: a line that carries the completion marker yields
/// exactly two events — a completion event carrying the line itself, then an
/// artifact-ready event carrying the configured output path.
pub proof fn lemma_completion_fanout(l: Seq<char>, artifact: Seq<char>, channel: Channel)
    requires
        contains_marker(l, completion_marker()),
    ensures
        line_events(l, artifact, channel).len() == 2,
        line_events(l, artifact, channel)[0].kind == EventKind::Completion,
        line_events(l, artifact, channel)[0].message == l,
        line_events(l, artifact, channel)[1].kind == EventKind::ArtifactReady,
        line_events(l, artifact, channel)[1].message == artifact,
{
}

} // verus!
