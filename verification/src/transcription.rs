//! Transcript segments as the transcriber streams them, which speaker a
//! segment belongs to, and how the microphone and system-audio transcripts
//! of one meeting become a single timeline.

use vstd::prelude::*;

use crate::domain::{app_error, opt_view, AppError};
use crate::text::chars_equal;
use crate::text::chars_of;

verus! {

/// Speaker label of segments transcribed from the user's microphone track.
pub const USER_SPEAKER_LABEL: &'static str = "Me";

/// Speaker label of segments transcribed from the system-audio track.
pub const OTHERS_SPEAKER_LABEL: &'static str = "Others";

/// One transcribed stretch of speech.
#[derive(Debug, Clone, PartialEq, Eq)]
pub struct TranscriptSegment {
    pub sequence_number: u32,
    pub speaker_label: Option<String>,
    pub text: String,
    pub started_at_ms: u64,
    pub ended_at_ms: u64,
}

/// A segment as it is streamed to listeners while a meeting is transcribed.
#[derive(Debug, Clone, PartialEq, Eq)]
pub struct TranscriptStreamEvent {
    pub meeting_id: String,
    pub segment: TranscriptSegment,
    pub is_final: bool,
}

/// Sent once a transcript stream has delivered its last segment.
#[derive(Debug, Clone, PartialEq, Eq)]
pub struct TranscriptStreamSummary {
    pub meeting_id: String,
    pub segment_count: u32,
}

/// Everything a transcriber produced for one audio file.
#[derive(Debug, Clone, PartialEq, Eq)]
pub struct TranscriptionOutput {
    pub segments: Vec<TranscriptSegment>,
}

/// Something that turns an audio file into transcript segments. An
/// implementation may name, in `transcription_of`, which answers it gives
/// for which file; one that does not admits every answer. Code generic over
/// the trait knows only that an answer is one the implementation gives for
/// the file it was asked about.
pub trait Transcriber {
    /// `r` is an answer this transcriber gives for the audio file at
    /// `audio_path`.
    open spec fn transcription_of(
        &self,
        audio_path: Seq<char>,
        r: Result<TranscriptionOutput, AppError>,
    ) -> bool {
        true
    }

    fn transcribe(&self, audio_path: &str) -> (r: Result<TranscriptionOutput, AppError>)
        ensures
            self.transcription_of(audio_path@, r),
    ;
}

/// Receiver of streamed transcript segments.
pub trait TranscriptEventSink {
    fn emit_segment(&mut self, event: TranscriptStreamEvent) -> Result<(), AppError>;

    fn complete(&mut self, summary: TranscriptStreamSummary) -> Result<(), AppError>;

    /// How many events the sink had to drop; a sink that never drops
    /// anything keeps the provided body, which counts none.
    fn dropped_event_count(&self) -> (r: u64)
        default_ensures
            r == 0,
    {
        0
    }
}

/// A segment is the user's own speech unless it is labelled as someone
/// else's: unlabelled (microphone-only) segments and segments labelled with
/// the user's label count as the user's.
pub open spec fn is_user_label(label: Option<Seq<char>>) -> bool {
    match label {
        None => true,
        Some(l) => l == USER_SPEAKER_LABEL@,
    }
}

pub fn is_user_segment(speaker_label: Option<&str>) -> (r: bool)
    ensures
        r == is_user_label(
            match speaker_label {
                Some(l) => Some(l@),
                None => None,
            },
        ),
{
    match speaker_label {
        None => true,
        Some(label) => {
            let got = chars_of(label);
            let user = chars_of(USER_SPEAKER_LABEL);
            chars_equal(&got, &user)
        },
    }
}

/// Whether a segment, by its optional label, is the user's own speech.
pub(crate) fn segment_is_users(segment: &TranscriptSegment) -> (r: bool)
    ensures
        r == is_user_label(opt_view(segment.speaker_label)),
{
    match &segment.speaker_label {
        None => true,
        Some(label) => is_user_segment(Some(label.as_str())),
    }
}


/// The order in which a merge takes segments, from position `i` of the
/// microphone track and `j` of the system track on: each step takes the
/// earlier-starting head, the microphone's on a tie; once one track is used
/// up the rest of the other follows. `(true, k)` is microphone segment `k`,
/// `(false, k)` system segment `k`.
pub open spec fn merge_picks(
    mic: Seq<TranscriptSegment>,
    sys: Seq<TranscriptSegment>,
    i: int,
    j: int,
) -> Seq<(bool, int)>
    decreases (mic.len() - i) + (sys.len() - j),
{
    if i < 0 || j < 0 || i > mic.len() || j > sys.len() {
        seq![]
    } else if i == mic.len() {
        Seq::new((sys.len() - j) as nat, |k: int| (false, j + k))
    } else if j == sys.len() {
        Seq::new((mic.len() - i) as nat, |k: int| (true, i + k))
    } else if mic[i].started_at_ms <= sys[j].started_at_ms {
        seq![(true, i)] + merge_picks(mic, sys, i + 1, j)
    } else {
        seq![(false, j)] + merge_picks(mic, sys, i, j + 1)
    }
}

/// Segment `k` of a merged transcript: the picked segment's text and times,
/// numbered `k + 1`, labelled with the speaker of the track it came from.
pub open spec fn merged_segment(
    out: TranscriptSegment,
    k: int,
    pick: (bool, int),
    mic: Seq<TranscriptSegment>,
    sys: Seq<TranscriptSegment>,
) -> bool {
    let src = if pick.0 {
        mic[pick.1]
    } else {
        sys[pick.1]
    };
    &&& out.sequence_number == k + 1
    &&& opt_view(out.speaker_label) == Some(
        if pick.0 {
            USER_SPEAKER_LABEL@
        } else {
            OTHERS_SPEAKER_LABEL@
        },
    )
    &&& out.text@ == src.text@
    &&& out.started_at_ms == src.started_at_ms
    &&& out.ended_at_ms == src.ended_at_ms
}

/// `out` is the merged timeline of the two tracks.
pub open spec fn is_merge_of(
    mic: Seq<TranscriptSegment>,
    sys: Seq<TranscriptSegment>,
    out: Seq<TranscriptSegment>,
) -> bool {
    let picks = merge_picks(mic, sys, 0, 0);
    &&& out.len() == picks.len()
    &&& forall|k: int| 0 <= k < out.len() ==> #[trigger] merged_segment(out[k], k, picks[k], mic, sys)
}

/// A merge takes every segment of both tracks.
pub proof fn lemma_merge_picks_len(
    mic: Seq<TranscriptSegment>,
    sys: Seq<TranscriptSegment>,
    i: int,
    j: int,
)
    requires
        0 <= i <= mic.len(),
        0 <= j <= sys.len(),
    ensures
        merge_picks(mic, sys, i, j).len() == (mic.len() - i) + (sys.len() - j),
    decreases (mic.len() - i) + (sys.len() - j),
{
    if i < mic.len() && j < sys.len() {
        if mic[i].started_at_ms <= sys[j].started_at_ms {
            lemma_merge_picks_len(mic, sys, i + 1, j);
        } else {
            lemma_merge_picks_len(mic, sys, i, j + 1);
        }
    }
}

/// One step of a merge from `(i, j)`, with something left to take.
proof fn lemma_merge_picks_step(
    mic: Seq<TranscriptSegment>,
    sys: Seq<TranscriptSegment>,
    i: int,
    j: int,
    take_mic: bool,
)
    requires
        0 <= i <= mic.len(),
        0 <= j <= sys.len(),
        i < mic.len() || j < sys.len(),
        take_mic == (j == sys.len() || (i < mic.len() && mic[i].started_at_ms
            <= sys[j].started_at_ms)),
    ensures
        take_mic ==> merge_picks(mic, sys, i, j) == seq![(true, i)] + merge_picks(
            mic,
            sys,
            i + 1,
            j,
        ),
        !take_mic ==> merge_picks(mic, sys, i, j) == seq![(false, j)] + merge_picks(
            mic,
            sys,
            i,
            j + 1,
        ),
{
    if i == mic.len() {
        assert(merge_picks(mic, sys, i, j) =~= seq![(false, j)] + merge_picks(mic, sys, i, j + 1));
    } else if j == sys.len() {
        assert(merge_picks(mic, sys, i, j) =~= seq![(true, i)] + merge_picks(mic, sys, i + 1, j));
    }
}

fn too_many_segments() -> (e: AppError)
    ensures
        e.is(
            "too_many_transcript_segments"@,
            "Transcription produced too many transcript segments."@,
        ),
        e.details is None,
{
    app_error(
        "too_many_transcript_segments",
        "Transcription produced too many transcript segments.",
        None,
    )
}

/// Merges the microphone and system-audio transcripts of one meeting into
/// one timeline ordered by start time: the user's segments labelled
/// [`USER_SPEAKER_LABEL`], the other participants' [`OTHERS_SPEAKER_LABEL`],
/// renumbered from 1. More segments than a `u32` can number is an error.
pub fn merge_dual_track_outputs(
    microphone: TranscriptionOutput,
    system: TranscriptionOutput,
) -> (r: Result<TranscriptionOutput, AppError>)
    ensures
        microphone.segments@.len() + system.segments@.len() <= u32::MAX ==> (r matches Ok(o)
            && is_merge_of(microphone.segments@, system.segments@, o.segments@)
            && o.segments@.len() == microphone.segments@.len() + system.segments@.len()),
        microphone.segments@.len() + system.segments@.len() > u32::MAX ==> (r matches Err(e)
            && e.is(
            "too_many_transcript_segments"@,
            "Transcription produced too many transcript segments."@,
        ) && e.details is None),
{
    let mic = &microphone.segments;
    let sys = &system.segments;
    let total = match mic.len().checked_add(sys.len()) {
        Some(t) => t,
        None => {
            return Err(too_many_segments());
        },
    };
    if total > 0xffff_ffff {
        return Err(too_many_segments());
    }
    let mut out: Vec<TranscriptSegment> = Vec::new();
    let mut i: usize = 0;
    let mut j: usize = 0;
    let ghost mut picks: Seq<(bool, int)> = seq![];
    while i < mic.len() || j < sys.len()
        invariant
            i <= mic@.len(),
            j <= sys@.len(),
            mic@.len() + sys@.len() <= u32::MAX,
            picks + merge_picks(mic@, sys@, i as int, j as int) == merge_picks(mic@, sys@, 0, 0),
            out@.len() == picks.len(),
            picks.len() == i + j,
            forall|k: int|
                0 <= k < out@.len() ==> #[trigger] merged_segment(
                    out@[k],
                    k,
                    picks[k],
                    mic@,
                    sys@,
                ),
        decreases (mic.len() - i) + (sys.len() - j),
    {
        let take_mic = if i == mic.len() {
            false
        } else if j == sys.len() {
            true
        } else {
            mic[i].started_at_ms <= sys[j].started_at_ms
        };
        proof {
            lemma_merge_picks_step(mic@, sys@, i as int, j as int, take_mic);
        }
        let number = (out.len() + 1) as u32;
        let ghost pick = if take_mic {
            (true, i as int)
        } else {
            (false, j as int)
        };
        let ghost before = out@;
        let seg = if take_mic {
            let s = &mic[i];
            TranscriptSegment {
                sequence_number: number,
                speaker_label: Some(String::from_str(USER_SPEAKER_LABEL)),
                text: s.text.clone(),
                started_at_ms: s.started_at_ms,
                ended_at_ms: s.ended_at_ms,
            }
        } else {
            let s = &sys[j];
            TranscriptSegment {
                sequence_number: number,
                speaker_label: Some(String::from_str(OTHERS_SPEAKER_LABEL)),
                text: s.text.clone(),
                started_at_ms: s.started_at_ms,
                ended_at_ms: s.ended_at_ms,
            }
        };
        out.push(seg);
        proof {
            let k0 = before.len() as int;
            assert(merged_segment(out@[k0], k0, pick, mic@, sys@));
            assert(picks.push(pick) + merge_picks(
                mic@,
                sys@,
                if take_mic { i + 1 } else { i as int },
                if take_mic { j as int } else { j + 1 },
            ) =~= picks + merge_picks(mic@, sys@, i as int, j as int));
            assert forall|k: int| 0 <= k < out@.len() implies #[trigger] merged_segment(
                out@[k],
                k,
                picks.push(pick)[k],
                mic@,
                sys@,
            ) by {
                if k < k0 {
                    assert(out@[k] == before[k]);
                }
            }
            picks = picks.push(pick);
        }
        if take_mic {
            i = i + 1;
        } else {
            j = j + 1;
        }
    }
    assert(merge_picks(mic@, sys@, i as int, j as int) =~= Seq::<(bool, int)>::empty());
    assert(picks =~= merge_picks(mic@, sys@, 0, 0));
    proof {
        lemma_merge_picks_len(mic@, sys@, 0, 0);
    }
    Ok(TranscriptionOutput { segments: out })
}

} // verus!
