//! What meeting analysis works on and produces: transcript evidence with the
//! speaker's role, and the parsed summary of a meeting.

use vstd::prelude::*;

use crate::domain::{AppError, MeetingId};
use crate::rules::MetricsSummary;
use crate::transcription::TranscriptSegment;

verus! {

/// Strategy interface for imported-recording summarizers.
pub trait MeetingSummarizer {
    fn summarize(
        &self,
        transcript_segments: &[AnalysisTranscriptSegment],
        include_speaking_improvements: bool,
    ) -> Result<MeetingSummary, AppError>;
}

/// One transcript segment available as evidence for analysis.
#[derive(Debug, Clone, PartialEq, Eq)]
pub struct AnalysisTranscriptSegment {
    pub sequence_number: u32,
    pub speaker_label: Option<String>,
    pub speaker_role: TranscriptSpeakerRole,
    pub text: String,
    pub started_at_ms: u64,
    pub ended_at_ms: u64,
}

/// Analyzer-facing speaker role derived locally from persisted speaker labels.
#[derive(Debug, Clone, Copy, PartialEq, Eq, Structural)]
pub enum TranscriptSpeakerRole {
    User,
    Context,
}

/// Parsed summary for an imported meeting recording.
#[derive(Debug, Clone, PartialEq, Eq)]
pub struct MeetingSummary {
    pub executive_summary: String,
    /// Thematic breakdown of the discussion, each with transcript-grounded
    /// bullets; empty for summaries stored before it existed.
    pub key_topics: Vec<KeyTopic>,
    pub action_items: Vec<MeetingActionItem>,
    pub decisions: Vec<String>,
    pub open_questions: Vec<String>,
    pub speaking_improvements: Vec<SpeakingImprovement>,
    /// Short suggested meeting title, used only when the meeting has none.
    pub meeting_title: Option<String>,
}

/// One thematic section of a meeting summary.
#[derive(Debug, Clone, PartialEq, Eq)]
pub struct KeyTopic {
    pub topic: String,
    pub points: Vec<String>,
}

/// One action item extracted from a meeting.
#[derive(Debug, Clone, PartialEq, Eq)]
pub struct MeetingActionItem {
    pub owner: Option<String>,
    pub task: String,
    pub due: Option<String>,
}

/// One transcript-grounded speaking improvement.
#[derive(Debug, Clone, PartialEq, Eq)]
pub struct SpeakingImprovement {
    pub category: String,
    pub quote: String,
    pub suggestion: String,
}

/// A meeting's transcript as the transcribe command returns it.
#[derive(Debug)]
pub struct TranscriptionResult {
    pub meeting_id: MeetingId,
    pub segment_count: u32,
    pub segments: Vec<TranscriptSegment>,
}

/// A meeting's summary as the summarize command returns it.
#[derive(Debug)]
pub struct MeetingNotesResult {
    pub meeting_id: MeetingId,
    pub summary: MeetingSummary,
    pub generated_at_ms: u64,
}

/// A meeting's deterministic metrics.
#[derive(Debug)]
pub struct MetricsCalculationResult {
    pub meeting_id: MeetingId,
    pub summary: MetricsSummary,
}

} // verus!
