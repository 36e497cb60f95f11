//! Core domain types: identifiers, the meeting lifecycle state machine, the
//! application error shape, user settings, and report scores.

use vstd::prelude::*;

use crate::text::{chars_of, decimal, decimal_chars, push_all, push_str, string_of};

verus! {

/// The error shape every fallible operation reports: a stable machine code,
/// a human message, and optional diagnostic details.
#[derive(Debug, Clone, PartialEq, Eq)]
pub struct AppError {
    pub code: String,
    pub message: String,
    pub details: Option<String>,
}

/// The view of an optional detail string.
pub open spec fn opt_view(s: Option<String>) -> Option<Seq<char>> {
    match s {
        Some(v) => Some(v@),
        None => None,
    }
}

impl AppError {
    /// The error carries exactly this code and message.
    pub open spec fn is(&self, code: Seq<char>, message: Seq<char>) -> bool {
        self.code@ == code && self.message@ == message
    }
}

pub fn app_error(code: &str, message: &str, details: Option<String>) -> (e: AppError)
    ensures
        e.code@ == code@,
        e.message@ == message@,
        e.details == details,
{
    AppError { code: String::from_str(code), message: String::from_str(message), details }
}

/// Builds `Some(format!("{key}={value}"))`.
pub fn detail_number(key: &str, value: u64) -> (d: Option<String>)
    ensures
        d matches Some(s) && s@ == key@ + "="@ + decimal(value as nat),
{
    let mut v: Vec<char> = chars_of(key);
    push_str(&mut v, "=");
    let digits = decimal_chars(value);
    push_all(&mut v, &digits);
    proof {
        reveal_strlit("=");
    }
    Some(string_of(v.as_slice()))
}

/// Identifier of a meeting (also the stem of its recording files).
#[derive(Debug, Clone, PartialEq, Eq)]
pub struct MeetingId(String);

/// Identifier of a transcript segment.
#[derive(Debug, Clone, PartialEq, Eq)]
pub struct SegmentId(String);

/// Identifier of a persisted metric.
#[derive(Debug, Clone, PartialEq, Eq)]
pub struct MetricId(String);

/// Identifier of a meeting report.
#[derive(Debug, Clone, PartialEq, Eq)]
pub struct ReportId(String);

/// Identifier of a meeting summary.
#[derive(Debug, Clone, PartialEq, Eq)]
pub struct SummaryId(String);

/// Identifier of a dictation session summary row.
#[derive(Debug, Clone, PartialEq, Eq)]
pub struct DictationSessionId(String);

/// Identifier of a practice recording.
#[derive(Debug, Clone, PartialEq, Eq)]
pub struct PracticeRecordingId(String);

/// Identifier of a practice review report.
#[derive(Debug, Clone, PartialEq, Eq)]
pub struct PracticeReviewReportId(String);

/// Identifier of a practice annotation.
#[derive(Debug, Clone, PartialEq, Eq)]
pub struct PracticeAnnotationId(String);


impl View for MeetingId {
    type V = Seq<char>;

    closed spec fn view(&self) -> Seq<char> {
        self.0@
    }
}

impl MeetingId {
    pub fn new(value: &str) -> (id: Self)
        ensures
            id@ == value@,
    {
        MeetingId(String::from_str(value))
    }

    pub fn as_str(&self) -> (s: &str)
        ensures
            s@ == self@,
    {
        self.0.as_str()
    }

    /// A copy with the same text.
    pub fn duplicate(&self) -> (id: Self)
        ensures
            id@ == self@,
    {
        MeetingId(self.0.clone())
    }
}

impl View for SegmentId {
    type V = Seq<char>;

    closed spec fn view(&self) -> Seq<char> {
        self.0@
    }
}

impl SegmentId {
    pub fn new(value: &str) -> (id: Self)
        ensures
            id@ == value@,
    {
        SegmentId(String::from_str(value))
    }

    pub fn as_str(&self) -> (s: &str)
        ensures
            s@ == self@,
    {
        self.0.as_str()
    }

    /// A copy with the same text.
    pub fn duplicate(&self) -> (id: Self)
        ensures
            id@ == self@,
    {
        SegmentId(self.0.clone())
    }
}

impl View for MetricId {
    type V = Seq<char>;

    closed spec fn view(&self) -> Seq<char> {
        self.0@
    }
}

impl MetricId {
    pub fn new(value: &str) -> (id: Self)
        ensures
            id@ == value@,
    {
        MetricId(String::from_str(value))
    }

    pub fn as_str(&self) -> (s: &str)
        ensures
            s@ == self@,
    {
        self.0.as_str()
    }

    /// A copy with the same text.
    pub fn duplicate(&self) -> (id: Self)
        ensures
            id@ == self@,
    {
        MetricId(self.0.clone())
    }
}

impl View for ReportId {
    type V = Seq<char>;

    closed spec fn view(&self) -> Seq<char> {
        self.0@
    }
}

impl ReportId {
    pub fn new(value: &str) -> (id: Self)
        ensures
            id@ == value@,
    {
        ReportId(String::from_str(value))
    }

    pub fn as_str(&self) -> (s: &str)
        ensures
            s@ == self@,
    {
        self.0.as_str()
    }

    /// A copy with the same text.
    pub fn duplicate(&self) -> (id: Self)
        ensures
            id@ == self@,
    {
        ReportId(self.0.clone())
    }
}

impl View for SummaryId {
    type V = Seq<char>;

    closed spec fn view(&self) -> Seq<char> {
        self.0@
    }
}

impl SummaryId {
    pub fn new(value: &str) -> (id: Self)
        ensures
            id@ == value@,
    {
        SummaryId(String::from_str(value))
    }

    pub fn as_str(&self) -> (s: &str)
        ensures
            s@ == self@,
    {
        self.0.as_str()
    }

    /// A copy with the same text.
    pub fn duplicate(&self) -> (id: Self)
        ensures
            id@ == self@,
    {
        SummaryId(self.0.clone())
    }
}

impl View for DictationSessionId {
    type V = Seq<char>;

    closed spec fn view(&self) -> Seq<char> {
        self.0@
    }
}

impl DictationSessionId {
    pub fn new(value: &str) -> (id: Self)
        ensures
            id@ == value@,
    {
        DictationSessionId(String::from_str(value))
    }

    pub fn as_str(&self) -> (s: &str)
        ensures
            s@ == self@,
    {
        self.0.as_str()
    }

    /// A copy with the same text.
    pub fn duplicate(&self) -> (id: Self)
        ensures
            id@ == self@,
    {
        DictationSessionId(self.0.clone())
    }
}

impl View for PracticeRecordingId {
    type V = Seq<char>;

    closed spec fn view(&self) -> Seq<char> {
        self.0@
    }
}

impl PracticeRecordingId {
    pub fn new(value: &str) -> (id: Self)
        ensures
            id@ == value@,
    {
        PracticeRecordingId(String::from_str(value))
    }

    pub fn as_str(&self) -> (s: &str)
        ensures
            s@ == self@,
    {
        self.0.as_str()
    }

    /// A copy with the same text.
    pub fn duplicate(&self) -> (id: Self)
        ensures
            id@ == self@,
    {
        PracticeRecordingId(self.0.clone())
    }
}

impl View for PracticeReviewReportId {
    type V = Seq<char>;

    closed spec fn view(&self) -> Seq<char> {
        self.0@
    }
}

impl PracticeReviewReportId {
    pub fn new(value: &str) -> (id: Self)
        ensures
            id@ == value@,
    {
        PracticeReviewReportId(String::from_str(value))
    }

    pub fn as_str(&self) -> (s: &str)
        ensures
            s@ == self@,
    {
        self.0.as_str()
    }

    /// A copy with the same text.
    pub fn duplicate(&self) -> (id: Self)
        ensures
            id@ == self@,
    {
        PracticeReviewReportId(self.0.clone())
    }
}

impl View for PracticeAnnotationId {
    type V = Seq<char>;

    closed spec fn view(&self) -> Seq<char> {
        self.0@
    }
}

impl PracticeAnnotationId {
    pub fn new(value: &str) -> (id: Self)
        ensures
            id@ == value@,
    {
        PracticeAnnotationId(String::from_str(value))
    }

    pub fn as_str(&self) -> (s: &str)
        ensures
            s@ == self@,
    {
        self.0.as_str()
    }

    /// A copy with the same text.
    pub fn duplicate(&self) -> (id: Self)
        ensures
            id@ == self@,
    {
        PracticeAnnotationId(self.0.clone())
    }
}


/// Where a meeting is in its record → transcribe → analyze pipeline.
#[allow(inconsistent_fields)]
#[derive(Debug, Clone, PartialEq, Eq)]
pub enum MeetingLifecycleState {
    Idle,
    Recording { meeting_id: MeetingId, started_at_ms: u64 },
    Stopping { meeting_id: MeetingId, started_at_ms: u64, stopped_at_ms: u64 },
    Transcribing {
        meeting_id: MeetingId,
        started_at_ms: u64,
        stopped_at_ms: u64,
        audio_path: String,
    },
    Analyzing {
        meeting_id: MeetingId,
        started_at_ms: u64,
        stopped_at_ms: u64,
        audio_path: String,
        segment_count: u32,
    },
    Complete {
        meeting_id: MeetingId,
        started_at_ms: u64,
        stopped_at_ms: u64,
        audio_path: String,
        segment_count: u32,
        report_id: ReportId,
    },
    FailedPartial { meeting_id: Option<MeetingId>, failed_stage: ProcessingStage, error: AppError },
}

/// What can happen to a meeting.
#[derive(Debug, Clone, PartialEq, Eq)]
pub enum MeetingLifecycleEvent {
    StartRequested { meeting_id: MeetingId, started_at_ms: u64 },
    StopRequested { stopped_at_ms: u64 },
    AudioSaved { audio_path: String },
    TranscriptionCompleted { segment_count: u32 },
    AnalysisCompleted { report_id: ReportId },
    Failed { failed_stage: ProcessingStage, error: AppError },
    ResetRequested,
}

/// The pipeline stage a failure happened in.
#[derive(Debug, Clone, Copy, PartialEq, Eq)]
pub enum ProcessingStage {
    Recording,
    Transcribing,
    Metrics,
    Analyzing,
}

/// The meeting a lifecycle state is about, if any.
pub open spec fn lifecycle_meeting_id(state: MeetingLifecycleState) -> Option<MeetingId> {
    match state {
        MeetingLifecycleState::Idle => None,
        MeetingLifecycleState::Recording { meeting_id, .. } => Some(meeting_id),
        MeetingLifecycleState::Stopping { meeting_id, .. } => Some(meeting_id),
        MeetingLifecycleState::Transcribing { meeting_id, .. } => Some(meeting_id),
        MeetingLifecycleState::Analyzing { meeting_id, .. } => Some(meeting_id),
        MeetingLifecycleState::Complete { meeting_id, .. } => Some(meeting_id),
        MeetingLifecycleState::FailedPartial { meeting_id, .. } => meeting_id,
    }
}

/// A meeting is actively in the pipeline (recording through analyzing).
pub open spec fn is_active(state: MeetingLifecycleState) -> bool {
    ||| state is Recording
    ||| state is Stopping
    ||| state is Transcribing
    ||| state is Analyzing
}

/// The state a valid event leads to, or `None` when the event is refused.
pub open spec fn next_lifecycle_state(
    state: MeetingLifecycleState,
    event: MeetingLifecycleEvent,
) -> Option<MeetingLifecycleState> {
    match (state, event) {
        (
            MeetingLifecycleState::Idle,
            MeetingLifecycleEvent::StartRequested { meeting_id, started_at_ms },
        ) => Some(MeetingLifecycleState::Recording { meeting_id, started_at_ms }),
        (
            MeetingLifecycleState::Recording { meeting_id, started_at_ms },
            MeetingLifecycleEvent::StopRequested { stopped_at_ms },
        ) => if stopped_at_ms < started_at_ms {
            None
        } else {
            Some(MeetingLifecycleState::Stopping { meeting_id, started_at_ms, stopped_at_ms })
        },
        (
            MeetingLifecycleState::Stopping { meeting_id, started_at_ms, stopped_at_ms },
            MeetingLifecycleEvent::AudioSaved { audio_path },
        ) => Some(
            MeetingLifecycleState::Transcribing {
                meeting_id,
                started_at_ms,
                stopped_at_ms,
                audio_path,
            },
        ),
        (
            MeetingLifecycleState::Transcribing {
                meeting_id,
                started_at_ms,
                stopped_at_ms,
                audio_path,
            },
            MeetingLifecycleEvent::TranscriptionCompleted { segment_count },
        ) => Some(
            MeetingLifecycleState::Analyzing {
                meeting_id,
                started_at_ms,
                stopped_at_ms,
                audio_path,
                segment_count,
            },
        ),
        (
            MeetingLifecycleState::Analyzing {
                meeting_id,
                started_at_ms,
                stopped_at_ms,
                audio_path,
                segment_count,
            },
            MeetingLifecycleEvent::AnalysisCompleted { report_id },
        ) => Some(
            MeetingLifecycleState::Complete {
                meeting_id,
                started_at_ms,
                stopped_at_ms,
                audio_path,
                segment_count,
                report_id,
            },
        ),
        (MeetingLifecycleState::Complete { .. }, MeetingLifecycleEvent::ResetRequested) => Some(
            MeetingLifecycleState::Idle,
        ),
        (MeetingLifecycleState::FailedPartial { .. }, MeetingLifecycleEvent::ResetRequested) => Some(
            MeetingLifecycleState::Idle,
        ),
        (s, MeetingLifecycleEvent::Failed { failed_stage, error }) => if is_active(s) {
            Some(
                MeetingLifecycleState::FailedPartial {
                    meeting_id: lifecycle_meeting_id(s),
                    failed_stage,
                    error,
                },
            )
        } else {
            None
        },
        _ => None,
    }
}

/// A stop that would end a recording before it began.
pub open spec fn is_early_stop(state: MeetingLifecycleState, event: MeetingLifecycleEvent) -> bool {
    &&& state matches MeetingLifecycleState::Recording { started_at_ms, .. }
    &&& event matches MeetingLifecycleEvent::StopRequested { stopped_at_ms }
    &&& stopped_at_ms < started_at_ms
}

pub open spec fn state_name(state: MeetingLifecycleState) -> Seq<char> {
    match state {
        MeetingLifecycleState::Idle => "Idle"@,
        MeetingLifecycleState::Recording { .. } => "Recording"@,
        MeetingLifecycleState::Stopping { .. } => "Stopping"@,
        MeetingLifecycleState::Transcribing { .. } => "Transcribing"@,
        MeetingLifecycleState::Analyzing { .. } => "Analyzing"@,
        MeetingLifecycleState::Complete { .. } => "Complete"@,
        MeetingLifecycleState::FailedPartial { .. } => "FailedPartial"@,
    }
}

pub open spec fn event_name(event: MeetingLifecycleEvent) -> Seq<char> {
    match event {
        MeetingLifecycleEvent::StartRequested { .. } => "StartRequested"@,
        MeetingLifecycleEvent::StopRequested { .. } => "StopRequested"@,
        MeetingLifecycleEvent::AudioSaved { .. } => "AudioSaved"@,
        MeetingLifecycleEvent::TranscriptionCompleted { .. } => "TranscriptionCompleted"@,
        MeetingLifecycleEvent::AnalysisCompleted { .. } => "AnalysisCompleted"@,
        MeetingLifecycleEvent::Failed { .. } => "Failed"@,
        MeetingLifecycleEvent::ResetRequested => "ResetRequested"@,
    }
}

fn state_name_of(state: &MeetingLifecycleState) -> (s: &'static str)
    ensures
        s@ == state_name(*state),
{
    proof {
        reveal_strlit("Idle");
        reveal_strlit("Recording");
        reveal_strlit("Stopping");
        reveal_strlit("Transcribing");
        reveal_strlit("Analyzing");
        reveal_strlit("Complete");
        reveal_strlit("FailedPartial");
    }
    match state {
        MeetingLifecycleState::Idle => "Idle",
        MeetingLifecycleState::Recording { .. } => "Recording",
        MeetingLifecycleState::Stopping { .. } => "Stopping",
        MeetingLifecycleState::Transcribing { .. } => "Transcribing",
        MeetingLifecycleState::Analyzing { .. } => "Analyzing",
        MeetingLifecycleState::Complete { .. } => "Complete",
        MeetingLifecycleState::FailedPartial { .. } => "FailedPartial",
    }
}

fn event_name_of(event: &MeetingLifecycleEvent) -> (s: &'static str)
    ensures
        s@ == event_name(*event),
{
    proof {
        reveal_strlit("StartRequested");
        reveal_strlit("StopRequested");
        reveal_strlit("AudioSaved");
        reveal_strlit("TranscriptionCompleted");
        reveal_strlit("AnalysisCompleted");
        reveal_strlit("Failed");
        reveal_strlit("ResetRequested");
    }
    match event {
        MeetingLifecycleEvent::StartRequested { .. } => "StartRequested",
        MeetingLifecycleEvent::StopRequested { .. } => "StopRequested",
        MeetingLifecycleEvent::AudioSaved { .. } => "AudioSaved",
        MeetingLifecycleEvent::TranscriptionCompleted { .. } => "TranscriptionCompleted",
        MeetingLifecycleEvent::AnalysisCompleted { .. } => "AnalysisCompleted",
        MeetingLifecycleEvent::Failed { .. } => "Failed",
        MeetingLifecycleEvent::ResetRequested => "ResetRequested",
    }
}

fn invalid_transition(state: &MeetingLifecycleState, event: &MeetingLifecycleEvent) -> (e: AppError)
    ensures
        e.code@ == "invalid_lifecycle_transition"@,
        e.message@ == "Meeting lifecycle event is not valid for the current state."@,
        e.details matches Some(d) && d@ == "state="@ + state_name(*state) + ", event="@
            + event_name(*event),
{
    let mut d: Vec<char> = chars_of("state=");
    push_str(&mut d, state_name_of(state));
    push_str(&mut d, ", event=");
    push_str(&mut d, event_name_of(event));
    app_error(
        "invalid_lifecycle_transition",
        "Meeting lifecycle event is not valid for the current state.",
        Some(string_of(d.as_slice())),
    )
}

fn early_stop_error(started_at_ms: u64, stopped_at_ms: u64) -> (e: AppError)
    ensures
        e.code@ == "invalid_lifecycle_timestamp"@,
        e.message@ == "Meeting cannot stop before it starts."@,
        e.details matches Some(d) && d@ == "started_at_ms="@ + decimal(started_at_ms as nat)
            + ", stopped_at_ms="@ + decimal(stopped_at_ms as nat),
{
    let mut d: Vec<char> = chars_of("started_at_ms=");
    let a = decimal_chars(started_at_ms);
    push_all(&mut d, &a);
    push_str(&mut d, ", stopped_at_ms=");
    let b = decimal_chars(stopped_at_ms);
    push_all(&mut d, &b);
    app_error(
        "invalid_lifecycle_timestamp",
        "Meeting cannot stop before it starts.",
        Some(string_of(d.as_slice())),
    )
}

impl MeetingLifecycleState {
    /// Applies `event`, returning the next state or the reason it was refused.
    pub fn transition(self, event: MeetingLifecycleEvent) -> (r: Result<Self, AppError>)
        ensures
            match r {
                Ok(next) => next_lifecycle_state(self, event) == Some(next),
                Err(e) => {
                    &&& next_lifecycle_state(self, event) is None
                    &&& if is_early_stop(self, event) {
                        &&& e.code@ == "invalid_lifecycle_timestamp"@
                        &&& e.message@ == "Meeting cannot stop before it starts."@
                    } else {
                        &&& e.code@ == "invalid_lifecycle_transition"@
                        &&& e.message@ == "Meeting lifecycle event is not valid for the current state."@
                        &&& e.details matches Some(d) && d@ == "state="@ + state_name(self)
                            + ", event="@ + event_name(event)
                    }
                },
            },
    {
        let is_active_state = match &self {
            MeetingLifecycleState::Recording { .. }
            | MeetingLifecycleState::Stopping { .. }
            | MeetingLifecycleState::Transcribing { .. }
            | MeetingLifecycleState::Analyzing { .. } => true,
            _ => false,
        };
        match event {
            MeetingLifecycleEvent::StartRequested { meeting_id, started_at_ms } => {
                match self {
                    MeetingLifecycleState::Idle => Ok(
                        MeetingLifecycleState::Recording { meeting_id, started_at_ms },
                    ),
                    state => {
                        let ev = MeetingLifecycleEvent::StartRequested { meeting_id, started_at_ms };
                        Err(invalid_transition(&state, &ev))
                    },
                }
            },
            MeetingLifecycleEvent::StopRequested { stopped_at_ms } => {
                match self {
                    MeetingLifecycleState::Recording { meeting_id, started_at_ms } => {
                        if stopped_at_ms < started_at_ms {
                            Err(early_stop_error(started_at_ms, stopped_at_ms))
                        } else {
                            Ok(
                                MeetingLifecycleState::Stopping {
                                    meeting_id,
                                    started_at_ms,
                                    stopped_at_ms,
                                },
                            )
                        }
                    },
                    state => {
                        let ev = MeetingLifecycleEvent::StopRequested { stopped_at_ms };
                        Err(invalid_transition(&state, &ev))
                    },
                }
            },
            MeetingLifecycleEvent::AudioSaved { audio_path } => {
                match self {
                    MeetingLifecycleState::Stopping { meeting_id, started_at_ms, stopped_at_ms } => {
                        Ok(
                            MeetingLifecycleState::Transcribing {
                                meeting_id,
                                started_at_ms,
                                stopped_at_ms,
                                audio_path,
                            },
                        )
                    },
                    state => {
                        let ev = MeetingLifecycleEvent::AudioSaved { audio_path };
                        Err(invalid_transition(&state, &ev))
                    },
                }
            },
            MeetingLifecycleEvent::TranscriptionCompleted { segment_count } => {
                match self {
                    MeetingLifecycleState::Transcribing {
                        meeting_id,
                        started_at_ms,
                        stopped_at_ms,
                        audio_path,
                    } => Ok(
                        MeetingLifecycleState::Analyzing {
                            meeting_id,
                            started_at_ms,
                            stopped_at_ms,
                            audio_path,
                            segment_count,
                        },
                    ),
                    state => {
                        let ev = MeetingLifecycleEvent::TranscriptionCompleted { segment_count };
                        Err(invalid_transition(&state, &ev))
                    },
                }
            },
            MeetingLifecycleEvent::AnalysisCompleted { report_id } => {
                match self {
                    MeetingLifecycleState::Analyzing {
                        meeting_id,
                        started_at_ms,
                        stopped_at_ms,
                        audio_path,
                        segment_count,
                    } => Ok(
                        MeetingLifecycleState::Complete {
                            meeting_id,
                            started_at_ms,
                            stopped_at_ms,
                            audio_path,
                            segment_count,
                            report_id,
                        },
                    ),
                    state => {
                        let ev = MeetingLifecycleEvent::AnalysisCompleted { report_id };
                        Err(invalid_transition(&state, &ev))
                    },
                }
            },
            MeetingLifecycleEvent::ResetRequested => {
                match self {
                    MeetingLifecycleState::Complete { .. } => Ok(MeetingLifecycleState::Idle),
                    MeetingLifecycleState::FailedPartial { .. } => Ok(MeetingLifecycleState::Idle),
                    state => Err(invalid_transition(&state, &MeetingLifecycleEvent::ResetRequested)),
                }
            },
            MeetingLifecycleEvent::Failed { failed_stage, error } => {
                if is_active_state {
                    let meeting_id = self.into_meeting_id();
                    Ok(MeetingLifecycleState::FailedPartial { meeting_id, failed_stage, error })
                } else {
                    let ev = MeetingLifecycleEvent::Failed { failed_stage, error };
                    Err(invalid_transition(&self, &ev))
                }
            },
        }
    }

    /// The meeting this state is about, moved out of the state.
    fn into_meeting_id(self) -> (id: Option<MeetingId>)
        ensures
            id == lifecycle_meeting_id(self),
    {
        match self {
            MeetingLifecycleState::Idle => None,
            MeetingLifecycleState::Recording { meeting_id, .. } => Some(meeting_id),
            MeetingLifecycleState::Stopping { meeting_id, .. } => Some(meeting_id),
            MeetingLifecycleState::Transcribing { meeting_id, .. } => Some(meeting_id),
            MeetingLifecycleState::Analyzing { meeting_id, .. } => Some(meeting_id),
            MeetingLifecycleState::Complete { meeting_id, .. } => Some(meeting_id),
            MeetingLifecycleState::FailedPartial { meeting_id, .. } => meeting_id,
        }
    }

    /// A copy of the meeting id this state is about, if any.
    pub fn meeting_id(&self) -> (id: Option<MeetingId>)
        ensures
            match (id, lifecycle_meeting_id(*self)) {
                (Some(a), Some(b)) => a@ == b@,
                (None, None) => true,
                _ => false,
            },
    {
        match self {
            MeetingLifecycleState::Idle => None,
            MeetingLifecycleState::Recording { meeting_id, .. } => Some(meeting_id.duplicate()),
            MeetingLifecycleState::Stopping { meeting_id, .. } => Some(meeting_id.duplicate()),
            MeetingLifecycleState::Transcribing { meeting_id, .. } => Some(meeting_id.duplicate()),
            MeetingLifecycleState::Analyzing { meeting_id, .. } => Some(meeting_id.duplicate()),
            MeetingLifecycleState::Complete { meeting_id, .. } => Some(meeting_id.duplicate()),
            MeetingLifecycleState::FailedPartial { meeting_id, .. } => match meeting_id {
                Some(m) => Some(m.duplicate()),
                None => None,
            },
        }
    }
}


/// Whether a stopped meeting's timestamps are ordered: every state that
/// carries both a start and a stop time has the stop at or after the start.
pub open spec fn timestamps_ordered(state: MeetingLifecycleState) -> bool {
    match state {
        MeetingLifecycleState::Stopping { started_at_ms, stopped_at_ms, .. } => started_at_ms
            <= stopped_at_ms,
        MeetingLifecycleState::Transcribing { started_at_ms, stopped_at_ms, .. } => started_at_ms
            <= stopped_at_ms,
        MeetingLifecycleState::Analyzing { started_at_ms, stopped_at_ms, .. } => started_at_ms
            <= stopped_at_ms,
        MeetingLifecycleState::Complete { started_at_ms, stopped_at_ms, .. } => started_at_ms
            <= stopped_at_ms,
        _ => true,
    }
}

/// Every accepted lifecycle event keeps a meeting's stop time at or after its
/// start time: no sequence of events can produce a meeting that stopped
/// before it started.
pub proof fn law_lifecycle_keeps_timestamps_ordered(
    state: MeetingLifecycleState,
    event: MeetingLifecycleEvent,
)
    requires
        timestamps_ordered(state),
        next_lifecycle_state(state, event) is Some,
    ensures
        timestamps_ordered(next_lifecycle_state(state, event)->0),
{
}

/// An accepted event never changes which meeting an active or finished
/// meeting is about; only a start names a new meeting and only a reset
/// forgets it.
pub proof fn law_lifecycle_keeps_meeting_id(
    state: MeetingLifecycleState,
    event: MeetingLifecycleEvent,
)
    requires
        !(state is Idle),
        !(event is ResetRequested),
        next_lifecycle_state(state, event) is Some,
    ensures
        lifecycle_meeting_id(next_lifecycle_state(state, event)->0) == lifecycle_meeting_id(state),
{
}

/// A finished meeting (complete or failed) accepts only a reset, which
/// returns the lifecycle to idle; late failures cannot overwrite it.
pub proof fn law_terminal_states_only_reset(
    state: MeetingLifecycleState,
    event: MeetingLifecycleEvent,
)
    requires
        state is Complete || state is FailedPartial,
    ensures
        next_lifecycle_state(state, event) is Some <==> event is ResetRequested,
        event is ResetRequested ==> next_lifecycle_state(state, event) == Some(
            MeetingLifecycleState::Idle,
        ),
{
}

/// Any active meeting can fail into a partial state that keeps its id, and
/// idle cannot fail because there is no meeting to fail.
pub proof fn law_failure_from_active_states(
    state: MeetingLifecycleState,
    failed_stage: ProcessingStage,
    error: AppError,
)
    ensures
        next_lifecycle_state(state, MeetingLifecycleEvent::Failed { failed_stage, error }) is Some
            <==> is_active(state),
        is_active(state) ==> next_lifecycle_state(
            state,
            MeetingLifecycleEvent::Failed { failed_stage, error },
        ) == Some(
            MeetingLifecycleState::FailedPartial {
                meeting_id: lifecycle_meeting_id(state),
                failed_stage,
                error,
            },
        ),
{
}

/// Which backend analyzes practice recordings.
#[derive(Debug, Clone, Copy, PartialEq, Eq)]
pub enum AnalyzerProvider {
    LocalOllama,
    CloudOpenAi,
    CloudClaude,
}

/// Which local model server backs meeting-notes summarization.
#[derive(Debug, Clone, Copy, PartialEq, Eq)]
pub enum SummarizerProvider {
    LmStudio,
    Ollama,
    Custom,
}

/// The UI appearance preference.
#[derive(Debug, Clone, Copy, PartialEq, Eq)]
pub enum ThemePreference {
    System,
    Light,
    Dark,
}

/// The user's settings.
#[derive(Debug, Clone, PartialEq, Eq)]
pub struct ResonanceSettings {
    pub microphone_device_id: Option<String>,
    pub enable_system_audio: bool,
    pub enable_echo_cancellation: bool,
    pub enable_realtime_nudges: bool,
    pub raw_audio_retention_days: u16,
    pub analyzer_provider: AnalyzerProvider,
    pub cloud_analysis_enabled: bool,
    pub cloud_video_review_enabled: bool,
    pub transcriber_bin_path: Option<String>,
    pub transcriber_model_path: Option<String>,
    pub speaker_embedding_model_path: Option<String>,
    pub speaker_segmentation_model_path: Option<String>,
    /// Canonical token for the system-wide dictation hotkey (e.g. `cmd+shift+d`).
    pub dictation_hotkey: String,
    /// Whether dictation polishes its transcript before inserting it.
    pub dictation_polish_enabled: bool,
    pub summarizer_provider: SummarizerProvider,
    pub summarizer_host: String,
    pub summarizer_port: u16,
    pub summarizer_model: Option<String>,
    pub theme_preference: ThemePreference,
}

/// Default token for the dictation hotkey: double-press Cmd+Shift+D.
pub const DEFAULT_DICTATION_HOTKEY: &'static str = "cmd+shift+d";

/// Default LM Studio host and port.
pub const DEFAULT_SUMMARIZER_HOST: &'static str = "127.0.0.1";

pub const DEFAULT_SUMMARIZER_PORT: u16 = 1234;

/// The default settings: local-first and private.
pub open spec fn is_default_settings(s: ResonanceSettings) -> bool {
    &&& s.microphone_device_id is None
    &&& s.enable_system_audio
    &&& s.enable_echo_cancellation
    &&& s.enable_realtime_nudges
    &&& s.raw_audio_retention_days == 7
    &&& s.analyzer_provider == AnalyzerProvider::LocalOllama
    &&& !s.cloud_analysis_enabled
    &&& !s.cloud_video_review_enabled
    &&& s.transcriber_bin_path is None
    &&& s.transcriber_model_path is None
    &&& s.speaker_embedding_model_path is None
    &&& s.speaker_segmentation_model_path is None
    &&& s.dictation_hotkey@ == "cmd+shift+d"@
    &&& !s.dictation_polish_enabled
    &&& s.summarizer_provider == SummarizerProvider::LmStudio
    &&& s.summarizer_host@ == "127.0.0.1"@
    &&& s.summarizer_port == 1234
    &&& s.summarizer_model is None
    &&& s.theme_preference == ThemePreference::System
}

impl Default for ResonanceSettings {
    fn default() -> (s: Self)
        ensures
            is_default_settings(s),
    {
        ResonanceSettings {
            microphone_device_id: None,
            enable_system_audio: true,
            enable_echo_cancellation: true,
            enable_realtime_nudges: true,
            raw_audio_retention_days: 7,
            analyzer_provider: AnalyzerProvider::LocalOllama,
            cloud_analysis_enabled: false,
            cloud_video_review_enabled: false,
            transcriber_bin_path: None,
            transcriber_model_path: None,
            speaker_embedding_model_path: None,
            speaker_segmentation_model_path: None,
            dictation_hotkey: String::from_str("cmd+shift+d"),
            dictation_polish_enabled: false,
            summarizer_provider: SummarizerProvider::LmStudio,
            summarizer_host: String::from_str("127.0.0.1"),
            summarizer_port: 1234,
            summarizer_model: None,
            theme_preference: ThemePreference::System,
        }
    }
}

/// A report score between 0 and 100.
#[derive(Debug, Clone, Copy, PartialEq, Eq, PartialOrd, Ord)]
pub struct Score(u8);

impl Score {
    pub closed spec fn spec_value(self) -> u8 {
        self.0
    }

    /// A score never exceeds 100.
    #[verifier::type_invariant]
    spec fn within_range(self) -> bool {
        self.0 <= 100
    }

    pub fn new(value: u8) -> (r: Result<Self, AppError>)
        ensures
            r is Ok <==> value <= 100,
            r matches Ok(s) ==> s.spec_value() == value,
            r matches Err(e) ==> {
                &&& e.code@ == "invalid_score"@
                &&& e.message@ == "Scores must be between 0 and 100."@
                &&& e.details matches Some(d) && d@ == "value="@ + decimal(value as nat)
            },
    {
        proof {
            reveal_strlit("value");
            reveal_strlit("=");
            reveal_strlit("value=");
        }
        if value <= 100 {
            Ok(Score(value))
        } else {
            Err(
                app_error(
                    "invalid_score",
                    "Scores must be between 0 and 100.",
                    detail_number("value", value as u64),
                ),
            )
        }
    }

    /// The score, which is at most 100.
    pub fn value(self) -> (v: u8)
        ensures
            v == self.spec_value(),
            v <= 100,
    {
        proof {
            use_type_invariant(self);
        }
        self.0
    }
}

/// The headline of one meeting report.
#[derive(Debug, Clone, PartialEq, Eq)]
pub struct MeetingReportSummary {
    pub report_id: ReportId,
    pub meeting_id: MeetingId,
    pub overall_score: Score,
    pub generated_at_ms: u64,
}

} // verus!
