//! Live coaching nudges: each of the user's transcript segments is checked
//! for filler words, hedging, pace and long monologues, and what is found is
//! throttled per category and across categories before it is shown.

use std::collections::VecDeque;
use std::time::Instant;

use vstd::prelude::*;

use crate::domain::{opt_view, AppError};
use crate::rules::{calculate_metrics, metrics_of, MetricsSummary, RuleTranscriptSegment};
use crate::text::{chars_of, decimal, decimal_chars, push_all, push_str, string_of};
use crate::transcription::{
    is_user_label, segment_is_users, TranscriptEventSink, TranscriptStreamEvent,
    TranscriptStreamSummary,
};

verus! {

/// Name of the UI event that carries a nudge.
pub const LIVE_NUDGE_EVENT: &'static str = "scribe://live-nudge";

/// A category fires at most once per this many milliseconds of transcript time.
pub const DEFAULT_THROTTLE_WINDOW_MS: u64 = 30_000;

/// At most one nudge of any category per this many milliseconds of wall-clock time.
pub const DEFAULT_WALL_CLOCK_THROTTLE_MS: u64 = 1_500;

/// How many recent segments the pace and talk-time rules look at.
pub const MAX_RECENT_SEGMENTS: usize = 120;

/// Fewer words than this say nothing about pace.
pub const MIN_PACE_WORDS: u64 = 20;

/// A single stretch of speech this long is a monologue.
pub const LONG_MONOLOGUE_MS: u64 = 45_000;

#[derive(Debug, Clone, Copy, PartialEq, Eq, Structural, PartialOrd, Ord)]
pub enum NudgeCategory {
    FillerWords,
    Hedging,
    Pace,
    TalkTime,
}

#[derive(Debug, Clone, Copy, PartialEq, Eq, Structural)]
pub enum NudgeSeverity {
    Info,
    Caution,
    Urgent,
}

/// One nudge shown to the user.
#[derive(Debug, Clone, PartialEq, Eq)]
pub struct LiveNudgeEvent {
    pub id: String,
    pub meeting_id: String,
    pub category: NudgeCategory,
    pub severity: NudgeSeverity,
    pub message: String,
    pub suggestion: String,
    pub evidence: String,
    pub occurred_at_ms: u64,
}

/// A nudge with its text taken as character sequences.
pub struct NudgeView {
    pub id: Seq<char>,
    pub meeting_id: Seq<char>,
    pub category: NudgeCategory,
    pub severity: NudgeSeverity,
    pub message: Seq<char>,
    pub suggestion: Seq<char>,
    pub evidence: Seq<char>,
    pub occurred_at_ms: u64,
}

impl View for LiveNudgeEvent {
    type V = NudgeView;

    open spec fn view(&self) -> NudgeView {
        NudgeView {
            id: self.id@,
            meeting_id: self.meeting_id@,
            category: self.category,
            severity: self.severity,
            message: self.message@,
            suggestion: self.suggestion@,
            evidence: self.evidence@,
            occurred_at_ms: self.occurred_at_ms,
        }
    }
}

pub open spec fn nudge_views(v: Seq<LiveNudgeEvent>) -> Seq<NudgeView> {
    v.map_values(|e: LiveNudgeEvent| e@)
}

/// Receiver of nudges.
pub trait NudgeEventSink {
    fn emit_nudge(&mut self, event: LiveNudgeEvent) -> Result<(), AppError>;
}

/// When each category last fired (transcript time) and when any nudge last
/// fired (wall-clock milliseconds since the pipeline was made).
#[derive(Debug, Clone, Copy, PartialEq, Eq, Structural)]
pub struct NudgeThrottle {
    pub filler_words_at_ms: Option<u64>,
    pub hedging_at_ms: Option<u64>,
    pub pace_at_ms: Option<u64>,
    pub talk_time_at_ms: Option<u64>,
    pub wall_clock_at_ms: Option<u64>,
}

impl NudgeThrottle {
    pub open spec fn last(self, c: NudgeCategory) -> Option<u64> {
        match c {
            NudgeCategory::FillerWords => self.filler_words_at_ms,
            NudgeCategory::Hedging => self.hedging_at_ms,
            NudgeCategory::Pace => self.pace_at_ms,
            NudgeCategory::TalkTime => self.talk_time_at_ms,
        }
    }

    /// The throttle after a nudge of category `c` at transcript time `at`
    /// was let through at wall-clock time `now`.
    pub open spec fn record(self, c: NudgeCategory, at: u64, now: u64) -> NudgeThrottle {
        let t = match c {
            NudgeCategory::FillerWords => NudgeThrottle { filler_words_at_ms: Some(at), ..self },
            NudgeCategory::Hedging => NudgeThrottle { hedging_at_ms: Some(at), ..self },
            NudgeCategory::Pace => NudgeThrottle { pace_at_ms: Some(at), ..self },
            NudgeCategory::TalkTime => NudgeThrottle { talk_time_at_ms: Some(at), ..self },
        };
        NudgeThrottle { wall_clock_at_ms: Some(now), ..t }
    }
}

/// `a - b`, or zero when `b > a`.
pub open spec fn sat_sub(a: u64, b: u64) -> int {
    if a >= b {
        a - b
    } else {
        0
    }
}

/// Whether a nudge of category `c` at transcript time `at`, offered at
/// wall-clock time `now`, gets through: the last nudge of any category was
/// at least `wall` ago, and the last one of this category at least `window`
/// of transcript time before it.
pub open spec fn admits(
    t: NudgeThrottle,
    c: NudgeCategory,
    at: u64,
    now: u64,
    window: u64,
    wall: u64,
) -> bool {
    &&& match t.wall_clock_at_ms {
        Some(prev) => sat_sub(now, prev) >= wall,
        None => true,
    }
    &&& match t.last(c) {
        Some(prev) => sat_sub(at, prev) >= window,
        None => true,
    }
}

/// Offers `cands` in order; returns the throttle afterwards and the nudges
/// that got through.
pub open spec fn throttle(
    t: NudgeThrottle,
    cands: Seq<NudgeView>,
    now: u64,
    window: u64,
    wall: u64,
) -> (NudgeThrottle, Seq<NudgeView>)
    decreases cands.len(),
{
    if cands.len() == 0 {
        (t, seq![])
    } else {
        let (t1, out) = throttle(t, cands.drop_last(), now, window, wall);
        let n = cands.last();
        if admits(t1, n.category, n.occurred_at_ms, now, window, wall) {
            (t1.record(n.category, n.occurred_at_ms, now), out.push(n))
        } else {
            (t1, out)
        }
    }
}

pub open spec fn category_name(c: NudgeCategory) -> Seq<char> {
    match c {
        NudgeCategory::FillerWords => "FillerWords"@,
        NudgeCategory::Hedging => "Hedging"@,
        NudgeCategory::Pace => "Pace"@,
        NudgeCategory::TalkTime => "TalkTime"@,
    }
}

/// The nudge of a category for the segment in `event`.
pub open spec fn nudge_for(
    event: TranscriptStreamEvent,
    category: NudgeCategory,
    severity: NudgeSeverity,
    message: Seq<char>,
    suggestion: Seq<char>,
) -> NudgeView {
    NudgeView {
        id: event.meeting_id@ + "-nudge-"@ + category_name(category) + "-"@ + decimal(
            event.segment.sequence_number as nat,
        ),
        meeting_id: event.meeting_id@,
        category,
        severity,
        message,
        suggestion,
        evidence: event.segment.text@,
        occurred_at_ms: event.segment.ended_at_ms,
    }
}

pub open spec fn filler_candidate(e: TranscriptStreamEvent, seg: MetricsSummary) -> Seq<NudgeView> {
    if seg.filler_word_count == 0 {
        seq![]
    } else {
        seq![
            nudge_for(
                e,
                NudgeCategory::FillerWords,
                NudgeSeverity::Caution,
                "Filler words are clustering."@,
                "Pause for one beat before the next thought."@,
            ),
        ]
    }
}

pub open spec fn hedging_candidate(e: TranscriptStreamEvent, seg: MetricsSummary) -> Seq<NudgeView> {
    if seg.hedging_phrase_count == 0 {
        seq![]
    } else {
        seq![
            nudge_for(
                e,
                NudgeCategory::Hedging,
                NudgeSeverity::Info,
                "Commitment language softened."@,
                "Try stating the recommendation directly."@,
            ),
        ]
    }
}

pub open spec fn pace_candidate(e: TranscriptStreamEvent, recent: MetricsSummary) -> Seq<NudgeView> {
    if recent.word_count < MIN_PACE_WORDS {
        seq![]
    } else if crate::rules::pace_is_fast(recent) {
        seq![
            nudge_for(
                e,
                NudgeCategory::Pace,
                NudgeSeverity::Caution,
                "Pace is running fast."@,
                "Slow down and leave space for listeners to process."@,
            ),
        ]
    } else if crate::rules::pace_is_slow(recent) {
        seq![
            nudge_for(
                e,
                NudgeCategory::Pace,
                NudgeSeverity::Info,
                "Pace is drifting slow."@,
                "Tighten the next sentence to keep momentum."@,
            ),
        ]
    } else {
        seq![]
    }
}

pub open spec fn talk_time_candidate(e: TranscriptStreamEvent, recent: MetricsSummary) -> Seq<
    NudgeView,
> {
    if recent.longest_monologue_ms < LONG_MONOLOGUE_MS {
        seq![]
    } else {
        seq![
            nudge_for(
                e,
                NudgeCategory::TalkTime,
                NudgeSeverity::Urgent,
                "Long monologue detected."@,
                "Invite a response or summarize before continuing."@,
            ),
        ]
    }
}

/// The nudges a segment calls for, before throttling: filler words and
/// hedging judged on the segment alone, pace and talk time on the recent
/// segments (the new one included), in that order.
pub open spec fn candidates(
    e: TranscriptStreamEvent,
    seg: MetricsSummary,
    recent: MetricsSummary,
) -> Seq<NudgeView> {
    filler_candidate(e, seg) + hedging_candidate(e, seg) + pace_candidate(e, recent)
        + talk_time_candidate(e, recent)
}

/// The segment the rules see for a streamed event.
pub open spec fn rule_segment(e: TranscriptStreamEvent) -> RuleTranscriptSegment {
    RuleTranscriptSegment {
        text: e.segment.text,
        started_at_ms: e.segment.started_at_ms,
        ended_at_ms: e.segment.ended_at_ms,
    }
}

/// The most recent `max` of `segs` followed by `s`.
pub open spec fn keep_recent(
    segs: Seq<RuleTranscriptSegment>,
    s: RuleTranscriptSegment,
    max: nat,
) -> Seq<RuleTranscriptSegment> {
    let all = segs.push(s);
    if all.len() > max {
        all.subrange(all.len() - max, all.len() as int)
    } else {
        all
    }
}

/// Everything a pipeline's behaviour depends on.
pub struct PipelineModel {
    pub segments: Seq<RuleTranscriptSegment>,
    pub throttle: NudgeThrottle,
    pub throttle_window_ms: u64,
    pub wall_clock_throttle_ms: u64,
    pub max_recent_segments: nat,
}

pub open spec fn model_wf(m: PipelineModel) -> bool {
    &&& m.max_recent_segments >= 1
    &&& m.segments.len() <= m.max_recent_segments
}

/// One segment through the pipeline at wall-clock time `now`: the new state
/// and the nudges shown.
pub open spec fn step(m: PipelineModel, e: TranscriptStreamEvent, now: u64) -> (
    PipelineModel,
    Seq<NudgeView>,
) {
    let seg = rule_segment(e);
    let recent = keep_recent(m.segments, seg, m.max_recent_segments);
    let cands = candidates(e, metrics_of(seq![seg]), metrics_of(recent));
    let (t, out) = throttle(m.throttle, cands, now, m.throttle_window_ms, m.wall_clock_throttle_ms);
    (PipelineModel { segments: recent, throttle: t, ..m }, out)
}

/// Turns transcript segments into throttled nudges.
#[derive(Debug)]
pub struct LiveNudgePipeline {
    segments: VecDeque<RuleTranscriptSegment>,
    throttle: NudgeThrottle,
    throttle_window_ms: u64,
    wall_clock_throttle_ms: u64,
    max_recent_segments: usize,
    clock_origin: Instant,
}

/// `std::time::Instant`, carried to measure wall-clock time between nudges.
#[verifier::external_type_specification]
#[verifier::external_body]
pub struct ExInstant(Instant);

/// `Instant::now`: the current reading of the monotonic clock. Nothing is
/// claimed of it.
#[verifier::external_body]
fn monotonic_now() -> Instant {
    Instant::now()
}

/// `Instant::elapsed` in whole milliseconds (saturating at `u64::MAX`).
/// Nothing is claimed of the reading: it depends on the clock.
#[verifier::external_body]
fn elapsed_ms(origin: &Instant) -> u64 {
    u64::try_from(origin.elapsed().as_millis()).unwrap_or(u64::MAX)
}

impl LiveNudgePipeline {
    pub closed spec fn model(&self) -> PipelineModel {
        PipelineModel {
            segments: self.segments@,
            throttle: self.throttle,
            throttle_window_ms: self.throttle_window_ms,
            wall_clock_throttle_ms: self.wall_clock_throttle_ms,
            max_recent_segments: self.max_recent_segments as nat,
        }
    }

    #[verifier::type_invariant]
    closed spec fn wf(&self) -> bool {
        model_wf(self.model())
    }

    /// A pipeline with the given transcript-time window, the default
    /// wall-clock throttle and history length.
    pub fn new(throttle_window_ms: u64) -> (r: Self)
        ensures
            model_wf(r.model()),
            r.model() == (PipelineModel {
                segments: seq![],
                throttle: no_nudges_yet(),
                throttle_window_ms,
                wall_clock_throttle_ms: DEFAULT_WALL_CLOCK_THROTTLE_MS,
                max_recent_segments: MAX_RECENT_SEGMENTS as nat,
            }),
    {
        Self::new_with_limits(throttle_window_ms, DEFAULT_WALL_CLOCK_THROTTLE_MS, MAX_RECENT_SEGMENTS)
    }

    /// A pipeline with explicit limits; a history length of zero is taken
    /// as one.
    pub fn new_with_limits(
        throttle_window_ms: u64,
        wall_clock_throttle_ms: u64,
        max_recent_segments: usize,
    ) -> (r: Self)
        ensures
            model_wf(r.model()),
            r.model() == (PipelineModel {
                segments: seq![],
                throttle: no_nudges_yet(),
                throttle_window_ms,
                wall_clock_throttle_ms,
                max_recent_segments: if max_recent_segments == 0 {
                    1
                } else {
                    max_recent_segments as nat
                },
            }),
    {
        LiveNudgePipeline {
            segments: VecDeque::new(),
            throttle: NudgeThrottle {
                filler_words_at_ms: None,
                hedging_at_ms: None,
                pace_at_ms: None,
                talk_time_at_ms: None,
                wall_clock_at_ms: None,
            },
            throttle_window_ms,
            wall_clock_throttle_ms,
            max_recent_segments: if max_recent_segments == 0 {
                1
            } else {
                max_recent_segments
            },
            clock_origin: monotonic_now(),
        }
    }

    /// The segments the pace and talk-time rules currently look at, oldest first.
    pub fn recent_segments(&self) -> (r: &VecDeque<RuleTranscriptSegment>)
        ensures
            r@ == self.model().segments,
    {
        &self.segments
    }

    /// Runs one segment through the pipeline, reading the wall clock once.
    pub fn process_segment(&mut self, event: &TranscriptStreamEvent) -> (r: Vec<LiveNudgeEvent>)
        ensures
            model_wf(final(self).model()),
            exists|now: u64|
                (#[trigger] step(old(self).model(), *event, now)) == (
                    final(self).model(),
                    nudge_views(r@),
                ),
    {
        let now = elapsed_ms(&self.clock_origin);
        self.process_segment_at(event, now)
    }

    /// Runs one segment through the pipeline at wall-clock time `now_ms`
    /// (milliseconds on the pipeline's clock).
    pub fn process_segment_at(&mut self, event: &TranscriptStreamEvent, now_ms: u64) -> (r: Vec<
        LiveNudgeEvent,
    >)
        ensures
            model_wf(final(self).model()),
            step(old(self).model(), *event, now_ms) == (final(self).model(), nudge_views(r@)),
    {
        let segment = RuleTranscriptSegment {
            text: event.segment.text.clone(),
            started_at_ms: event.segment.started_at_ms,
            ended_at_ms: event.segment.ended_at_ms,
        };
        proof {
            use_type_invariant(&*self);
        }
        let mut segments: VecDeque<RuleTranscriptSegment> = VecDeque::new();
        std::mem::swap(&mut segments, &mut self.segments);
        let ghost old_segments = segments@;
        segments.push_back(segment.duplicate());
        if segments.len() > self.max_recent_segments {
            segments.pop_front();
            assert(segments@ =~= old_segments.push(segment).subrange(
                old_segments.len() + 1 - self.max_recent_segments as int,
                old_segments.len() + 1 as int,
            ));
        }
        self.segments = segments;
        let single = vec![segment];
        let seg_metrics = calculate_metrics(single.as_slice());
        assert(single@ =~= seq![rule_segment(*event)]);
        let mut recent: Vec<RuleTranscriptSegment> = Vec::new();
        let mut i: usize = 0;
        while i < self.segments.len()
            invariant
                i <= self.segments@.len(),
                recent@ == self.segments@.take(i as int),
            decreases self.segments@.len() - i,
        {
            recent.push(self.segments[i].duplicate());
            i = i + 1;
            assert(recent@ =~= self.segments@.take(i as int));
        }
        assert(recent@ =~= self.segments@);
        let recent_metrics = calculate_metrics(recent.as_slice());
        let mut cands: Vec<LiveNudgeEvent> = Vec::new();
        if seg_metrics.filler_word_count != 0 {
            cands.push(
                nudge(
                    event,
                    NudgeCategory::FillerWords,
                    NudgeSeverity::Caution,
                    "Filler words are clustering.",
                    "Pause for one beat before the next thought.",
                ),
            );
        }
        if seg_metrics.hedging_phrase_count != 0 {
            cands.push(
                nudge(
                    event,
                    NudgeCategory::Hedging,
                    NudgeSeverity::Info,
                    "Commitment language softened.",
                    "Try stating the recommendation directly.",
                ),
            );
        }
        if recent_metrics.word_count >= MIN_PACE_WORDS {
            if recent_metrics.is_fast_pace() {
                cands.push(
                    nudge(
                        event,
                        NudgeCategory::Pace,
                        NudgeSeverity::Caution,
                        "Pace is running fast.",
                        "Slow down and leave space for listeners to process.",
                    ),
                );
            } else if recent_metrics.is_slow_pace() {
                cands.push(
                    nudge(
                        event,
                        NudgeCategory::Pace,
                        NudgeSeverity::Info,
                        "Pace is drifting slow.",
                        "Tighten the next sentence to keep momentum.",
                    ),
                );
            }
        }
        if recent_metrics.longest_monologue_ms >= LONG_MONOLOGUE_MS {
            cands.push(
                nudge(
                    event,
                    NudgeCategory::TalkTime,
                    NudgeSeverity::Urgent,
                    "Long monologue detected.",
                    "Invite a response or summarize before continuing.",
                ),
            );
        }
        assert(nudge_views(cands@) =~= candidates(*event, seg_metrics, recent_metrics));
        self.emit_admitted(cands, now_ms)
    }

    /// Offers each candidate to the throttle, in order, and keeps those that
    /// get through.
    fn emit_admitted(&mut self, cands: Vec<LiveNudgeEvent>, now_ms: u64) -> (r: Vec<
        LiveNudgeEvent,
    >)
        ensures
            final(self).segments@ == old(self).segments@,
            final(self).throttle_window_ms == old(self).throttle_window_ms,
            final(self).wall_clock_throttle_ms == old(self).wall_clock_throttle_ms,
            final(self).max_recent_segments == old(self).max_recent_segments,
            (final(self).throttle, nudge_views(r@)) == throttle(
                old(self).throttle,
                nudge_views(cands@),
                now_ms,
                old(self).throttle_window_ms,
                old(self).wall_clock_throttle_ms,
            ),
    {
        let mut out: Vec<LiveNudgeEvent> = Vec::new();
        let ghost all = nudge_views(cands@);
        let mut cands = cands;
        let total = cands.len();
        let mut i: usize = 0;
        while cands.len() > 0
            invariant
                all.len() == total,
                i <= all.len(),
                nudge_views(cands@) == all.skip(i as int),
                self.segments@ == old(self).segments@,
                self.throttle_window_ms == old(self).throttle_window_ms,
                self.wall_clock_throttle_ms == old(self).wall_clock_throttle_ms,
                self.max_recent_segments == old(self).max_recent_segments,
                (self.throttle, nudge_views(out@)) == throttle(
                    old(self).throttle,
                    all.take(i as int),
                    now_ms,
                    old(self).throttle_window_ms,
                    old(self).wall_clock_throttle_ms,
                ),
            decreases cands.len(),
        {
            let ghost before = cands@;
            let n = cands.remove(0);
            assert(before.len() > 0);
            assert(nudge_views(before).len() == before.len());
            assert(all.skip(i as int).len() == all.len() - i);
            assert(i < all.len());
            assert(nudge_views(before)[0] == all.skip(i as int)[0]);
            assert(cands@ =~= before.subrange(1, before.len() as int));
            assert forall|k: int| 0 <= k < cands@.len() implies nudge_views(cands@)[k] == all.skip(
                i + 1,
            )[k] by {
                assert(nudge_views(before)[k + 1] == all.skip(i as int)[k + 1]);
            }
            assert(nudge_views(cands@) =~= all.skip(i + 1));
            assert(all.take(i + 1).drop_last() =~= all.take(i as int));
            let ok = self.should_emit(n.category, n.occurred_at_ms, now_ms);
            if ok {
                let ghost prev = nudge_views(out@);
                out.push(n);
                assert(nudge_views(out@) =~= prev.push(all[i as int]));
            }
            i = i + 1;
        }
        assert(all.take(i as int) =~= all);
        out
    }

    /// Whether a nudge of `category` at transcript time `occurred_at_ms`
    /// gets through at wall-clock time `now_ms`; records it if so.
    fn should_emit(&mut self, category: NudgeCategory, occurred_at_ms: u64, now_ms: u64) -> (r:
        bool)
        ensures
            final(self).segments@ == old(self).segments@,
            final(self).throttle_window_ms == old(self).throttle_window_ms,
            final(self).wall_clock_throttle_ms == old(self).wall_clock_throttle_ms,
            final(self).max_recent_segments == old(self).max_recent_segments,
            r == admits(
                old(self).throttle,
                category,
                occurred_at_ms,
                now_ms,
                old(self).throttle_window_ms,
                old(self).wall_clock_throttle_ms,
            ),
            final(self).throttle == if r {
                old(self).throttle.record(category, occurred_at_ms, now_ms)
            } else {
                old(self).throttle
            },
    {
        proof {
            use_type_invariant(&*self);
        }
        if let Some(previous) = self.throttle.wall_clock_at_ms {
            if now_ms.saturating_sub(previous) < self.wall_clock_throttle_ms {
                return false;
            }
        }
        let last = match category {
            NudgeCategory::FillerWords => self.throttle.filler_words_at_ms,
            NudgeCategory::Hedging => self.throttle.hedging_at_ms,
            NudgeCategory::Pace => self.throttle.pace_at_ms,
            NudgeCategory::TalkTime => self.throttle.talk_time_at_ms,
        };
        if let Some(previous) = last {
            if occurred_at_ms.saturating_sub(previous) < self.throttle_window_ms {
                return false;
            }
        }
        match category {
            NudgeCategory::FillerWords => self.throttle.filler_words_at_ms = Some(occurred_at_ms),
            NudgeCategory::Hedging => self.throttle.hedging_at_ms = Some(occurred_at_ms),
            NudgeCategory::Pace => self.throttle.pace_at_ms = Some(occurred_at_ms),
            NudgeCategory::TalkTime => self.throttle.talk_time_at_ms = Some(occurred_at_ms),
        }
        self.throttle.wall_clock_at_ms = Some(now_ms);
        true
    }
}

/// A throttle that has let nothing through yet.
pub open spec fn no_nudges_yet() -> NudgeThrottle {
    NudgeThrottle {
        filler_words_at_ms: None,
        hedging_at_ms: None,
        pace_at_ms: None,
        talk_time_at_ms: None,
        wall_clock_at_ms: None,
    }
}

impl Default for LiveNudgePipeline {
    fn default() -> (r: Self)
        ensures
            model_wf(r.model()),
            r.model() == (PipelineModel {
                segments: seq![],
                throttle: no_nudges_yet(),
                throttle_window_ms: DEFAULT_THROTTLE_WINDOW_MS,
                wall_clock_throttle_ms: DEFAULT_WALL_CLOCK_THROTTLE_MS,
                max_recent_segments: MAX_RECENT_SEGMENTS as nat,
            }),
    {
        Self::new(DEFAULT_THROTTLE_WINDOW_MS)
    }
}

fn category_name_chars(c: NudgeCategory) -> (r: Vec<char>)
    ensures
        r@ == category_name(c),
{
    match c {
        NudgeCategory::FillerWords => chars_of("FillerWords"),
        NudgeCategory::Hedging => chars_of("Hedging"),
        NudgeCategory::Pace => chars_of("Pace"),
        NudgeCategory::TalkTime => chars_of("TalkTime"),
    }
}

fn nudge(
    event: &TranscriptStreamEvent,
    category: NudgeCategory,
    severity: NudgeSeverity,
    message: &str,
    suggestion: &str,
) -> (r: LiveNudgeEvent)
    ensures
        r@ == nudge_for(*event, category, severity, message@, suggestion@),
{
    let mut id = chars_of(event.meeting_id.as_str());
    push_str(&mut id, "-nudge-");
    let name = category_name_chars(category);
    push_all(&mut id, &name);
    push_str(&mut id, "-");
    let number = decimal_chars(event.segment.sequence_number as u64);
    push_all(&mut id, &number);
    LiveNudgeEvent {
        id: string_of(id.as_slice()),
        meeting_id: event.meeting_id.clone(),
        category,
        severity,
        message: message.to_owned(),
        suggestion: suggestion.to_owned(),
        evidence: event.segment.text.clone(),
        occurred_at_ms: event.segment.ended_at_ms,
    }
}

/// No two of `v` share a category.
pub open spec fn distinct_categories(v: Seq<NudgeView>) -> bool {
    forall|i: int, j: int|
        0 <= i < j < v.len() ==> (#[trigger] v[i]).category != (#[trigger] v[j]).category
}

proof fn lemma_candidates_distinct(e: TranscriptStreamEvent, seg: MetricsSummary, recent: MetricsSummary)
    ensures
        distinct_categories(candidates(e, seg, recent)),
        forall|k: int|
            0 <= k < candidates(e, seg, recent).len() ==> (#[trigger] candidates(
                e,
                seg,
                recent,
            )[k]).occurred_at_ms == e.segment.ended_at_ms,
{
    let a = filler_candidate(e, seg);
    let b = hedging_candidate(e, seg);
    let c = pace_candidate(e, recent);
    let d = talk_time_candidate(e, recent);
    let all = a + b + c + d;
    assert forall|i: int, j: int| 0 <= i < j < all.len() implies (#[trigger] all[i]).category
        != (#[trigger] all[j]).category by {
        let rank = |n: NudgeView|
            match n.category {
                NudgeCategory::FillerWords => 0int,
                NudgeCategory::Hedging => 1int,
                NudgeCategory::Pace => 2int,
                NudgeCategory::TalkTime => 3int,
            };
        assert(forall|k: int| 0 <= k < a.len() ==> rank(#[trigger] a[k]) == 0);
        assert(forall|k: int| 0 <= k < b.len() ==> rank(#[trigger] b[k]) == 1);
        assert(forall|k: int| 0 <= k < c.len() ==> rank(#[trigger] c[k]) == 2);
        assert(forall|k: int| 0 <= k < d.len() ==> rank(#[trigger] d[k]) == 3);
        assert(a.len() <= 1 && b.len() <= 1 && c.len() <= 1 && d.len() <= 1);
        assert(rank(all[i]) < rank(all[j]));
    }
}

/// What the throttle does, stated per nudge: each nudge let through was far
/// enough from the last one of its category and from the last of any
/// category, and is what the throttle remembers afterwards; categories and
/// the wall clock that nothing went through for are left as they were.
proof fn lemma_throttle(t: NudgeThrottle, cands: Seq<NudgeView>, now: u64, window: u64, wall: u64)
    requires
        distinct_categories(cands),
    ensures
        ({
            let (t2, out) = throttle(t, cands, now, window, wall);
            &&& forall|k: int| 0 <= k < out.len() ==> cands.contains(#[trigger] out[k])
            &&& distinct_categories(out)
            &&& forall|k: int|
                0 <= k < out.len() ==> {
                    let c = (#[trigger] out[k]).category;
                    &&& t2.last(c) == Some(out[k].occurred_at_ms)
                    &&& match t.last(c) {
                        Some(prev) => sat_sub(out[k].occurred_at_ms, prev) >= window,
                        None => true,
                    }
                }
            &&& forall|c: NudgeCategory|
                (forall|k: int| 0 <= k < out.len() ==> (#[trigger] out[k]).category != c)
                    ==> t2.last(c) == t.last(c)
            &&& out.len() == 0 ==> t2.wall_clock_at_ms == t.wall_clock_at_ms
            &&& out.len() > 0 ==> t2.wall_clock_at_ms == Some(now)
            &&& out.len() > 0 ==> match t.wall_clock_at_ms {
                Some(prev) => sat_sub(now, prev) >= wall,
                None => true,
            }
            &&& wall > 0 ==> out.len() <= 1
        }),
    decreases cands.len(),
{
    if cands.len() > 0 {
        let rest = cands.drop_last();
        assert(distinct_categories(rest)) by {
            assert forall|i: int, j: int| 0 <= i < j < rest.len() implies (#[trigger] rest[i]).category
                != (#[trigger] rest[j]).category by {
                assert(rest[i] == cands[i] && rest[j] == cands[j]);
            }
        }
        lemma_throttle(t, rest, now, window, wall);
        let (t1, out1) = throttle(t, rest, now, window, wall);
        let n = cands.last();
        assert forall|k: int| 0 <= k < out1.len() implies (#[trigger] out1[k]).category
            != n.category by {
            assert(rest.contains(out1[k]));
            let j = choose|j: int| 0 <= j < rest.len() && rest[j] == out1[k];
            assert(cands[j] == rest[j]);
            assert(cands[cands.len() - 1] == n);
        }
        if admits(t1, n.category, n.occurred_at_ms, now, window, wall) {
            let t2 = t1.record(n.category, n.occurred_at_ms, now);
            let out = out1.push(n);
            assert(throttle(t, cands, now, window, wall) == (t2, out));
            assert forall|k: int| 0 <= k < out.len() implies cands.contains(#[trigger] out[k]) by {
                if k < out1.len() {
                    assert(rest.contains(out1[k]));
                    let j = choose|j: int| 0 <= j < rest.len() && rest[j] == out1[k];
                    assert(cands[j] == out[k]);
                } else {
                    assert(cands[cands.len() - 1] == out[k]);
                }
            }
            assert(t1.last(n.category) == t.last(n.category));
            assert forall|c: NudgeCategory|
                (forall|k: int| 0 <= k < out.len() ==> (#[trigger] out[k]).category != c) implies t2.last(c)
                == t.last(c) by {
                assert(out[out1.len() as int] == n);
                assert forall|k: int| 0 <= k < out1.len() implies (#[trigger] out1[k]).category != c by {
                    assert(out[k] == out1[k]);
                }
            }
            if wall > 0 && out1.len() > 0 {
                assert(t1.wall_clock_at_ms == Some(now));
                assert(sat_sub(now, now) == 0);
            }
        } else {
            assert(throttle(t, cands, now, window, wall) == (t1, out1));
            assert forall|k: int| 0 <= k < out1.len() implies cands.contains(#[trigger] out1[k]) by {
                assert(rest.contains(out1[k]));
                let j = choose|j: int| 0 <= j < rest.len() && rest[j] == out1[k];
                assert(cands[j] == out1[k]);
            }
        }
    }
}

/// With no wall-clock spacing and no earlier nudge of any candidate's
/// category, the throttle lets every candidate through, in order.
proof fn lemma_throttle_passes_all(t: NudgeThrottle, cands: Seq<NudgeView>, now: u64, window: u64)
    requires
        distinct_categories(cands),
        forall|k: int| 0 <= k < cands.len() ==> t.last((#[trigger] cands[k]).category) is None,
    ensures
        throttle(t, cands, now, window, 0).1 == cands,
    decreases cands.len(),
{
    if cands.len() > 0 {
        let rest = cands.drop_last();
        assert(distinct_categories(rest)) by {
            assert forall|i: int, j: int| 0 <= i < j < rest.len() implies (#[trigger] rest[i]).category
                != (#[trigger] rest[j]).category by {
                assert(rest[i] == cands[i] && rest[j] == cands[j]);
            }
        }
        assert forall|k: int| 0 <= k < rest.len() implies t.last((#[trigger] rest[k]).category) is None by {
            assert(rest[k] == cands[k]);
        }
        lemma_throttle_passes_all(t, rest, now, window);
        lemma_throttle(t, rest, now, window, 0);
        let (t1, out1) = throttle(t, rest, now, window, 0);
        let n = cands.last();
        assert forall|k: int| 0 <= k < out1.len() implies (#[trigger] out1[k]).category != n.category by {
            assert(out1[k] == cands[k]);
        }
        assert(t1.last(n.category) == t.last(n.category));
        assert(t.last(cands[cands.len() - 1].category) is None);
        assert(admits(t1, n.category, n.occurred_at_ms, now, window, 0));
        assert(out1.push(n) =~= cands);
    }
}

/// A pipeline with no nudge shown yet and no wall-clock spacing shows every
/// nudge a segment calls for, in order: filler words and hedging judged on
/// the segment, pace when the recent speech (this segment included) has at
/// least 20 words and is faster than 180 (`Caution`) or slower than 110
/// (`Info`) words a minute, talk time (`Urgent`) when its longest monologue
/// reaches 45 seconds.
pub proof fn law_fresh_pipeline_shows_every_called_for_nudge(
    m: PipelineModel,
    e: TranscriptStreamEvent,
    now: u64,
)
    requires
        m.throttle == no_nudges_yet(),
        m.wall_clock_throttle_ms == 0,
    ensures
        step(m, e, now).1 == candidates(
            e,
            metrics_of(seq![rule_segment(e)]),
            metrics_of(keep_recent(m.segments, rule_segment(e), m.max_recent_segments)),
        ),
{
    let seg = metrics_of(seq![rule_segment(e)]);
    let recent = metrics_of(keep_recent(m.segments, rule_segment(e), m.max_recent_segments));
    lemma_candidates_distinct(e, seg, recent);
    lemma_throttle_passes_all(m.throttle, candidates(e, seg, recent), now, m.throttle_window_ms);
}

/// With no wall-clock spacing, a candidate whose category last fired long
/// enough ago (or never) gets through, whatever else is offered with it.
proof fn lemma_throttle_lets_through(t: NudgeThrottle, cands: Seq<NudgeView>, now: u64, window: u64, k: int)
    requires
        distinct_categories(cands),
        0 <= k < cands.len(),
        match t.last(cands[k].category) {
            Some(prev) => sat_sub(cands[k].occurred_at_ms, prev) >= window,
            None => true,
        },
    ensures
        throttle(t, cands, now, window, 0).1.contains(cands[k]),
    decreases cands.len(),
{
    let rest = cands.drop_last();
    assert(distinct_categories(rest)) by {
        assert forall|i: int, j: int| 0 <= i < j < rest.len() implies (#[trigger] rest[i]).category
            != (#[trigger] rest[j]).category by {
            assert(rest[i] == cands[i] && rest[j] == cands[j]);
        }
    }
    lemma_throttle(t, rest, now, window, 0);
    let (t1, out1) = throttle(t, rest, now, window, 0);
    let n = cands.last();
    if k == cands.len() - 1 {
        assert forall|j: int| 0 <= j < out1.len() implies (#[trigger] out1[j]).category != n.category by {
            assert(rest.contains(out1[j]));
            let i = choose|i: int| 0 <= i < rest.len() && rest[i] == out1[j];
            assert(cands[i] == rest[i]);
        }
        assert(t1.last(n.category) == t.last(n.category));
        assert(admits(t1, n.category, n.occurred_at_ms, now, window, 0));
        assert(out1.push(n)[out1.len() as int] == n);
    } else {
        assert(rest[k] == cands[k]);
        lemma_throttle_lets_through(t, rest, now, window, k);
        let i = choose|i: int| 0 <= i < out1.len() && out1[i] == cands[k];
        if admits(t1, n.category, n.occurred_at_ms, now, window, 0) {
            assert(out1.push(n)[i] == cands[k]);
        }
    }
}

/// Pace is judged on all the recent speech the pipeline keeps, the new
/// segment included: when those segments hold at least 20 words spoken
/// faster than 180 words a minute, and the throttle lets a pace nudge
/// through, the segment shows the "Pace is running fast." caution, however
/// few words the new segment has on its own.
pub proof fn law_pace_judged_on_recent_speech(m: PipelineModel, e: TranscriptStreamEvent, now: u64)
    requires
        m.wall_clock_throttle_ms == 0,
        match m.throttle.pace_at_ms {
            Some(prev) => sat_sub(e.segment.ended_at_ms, prev) >= m.throttle_window_ms,
            None => true,
        },
        ({
            let r = metrics_of(keep_recent(m.segments, rule_segment(e), m.max_recent_segments));
            &&& r.word_count >= 20
            &&& r.speaking_duration_ms > 0
            &&& r.word_count * 60_000 > 180 * r.speaking_duration_ms
        }),
    ensures
        step(m, e, now).1.contains(
            nudge_for(
                e,
                NudgeCategory::Pace,
                NudgeSeverity::Caution,
                "Pace is running fast."@,
                "Slow down and leave space for listeners to process."@,
            ),
        ),
{
    let seg = metrics_of(seq![rule_segment(e)]);
    let recent = metrics_of(keep_recent(m.segments, rule_segment(e), m.max_recent_segments));
    let cands = candidates(e, seg, recent);
    lemma_candidates_distinct(e, seg, recent);
    let a = filler_candidate(e, seg);
    let b = hedging_candidate(e, seg);
    let k: int = (a.len() + b.len()) as int;
    assert(cands[k] == nudge_for(
        e,
        NudgeCategory::Pace,
        NudgeSeverity::Caution,
        "Pace is running fast."@,
        "Slow down and leave space for listeners to process."@,
    ));
    lemma_throttle_lets_through(m.throttle, cands, now, m.throttle_window_ms, k);
}

/// Two nudges of the same category shown for consecutive segments are at
/// least the throttle window apart in transcript time.
pub proof fn law_category_spacing(
    m: PipelineModel,
    e1: TranscriptStreamEvent,
    now1: u64,
    e2: TranscriptStreamEvent,
    now2: u64,
    i: int,
    j: int,
)
    requires
        model_wf(m),
        0 <= i < step(m, e1, now1).1.len(),
        0 <= j < step(step(m, e1, now1).0, e2, now2).1.len(),
        step(m, e1, now1).1[i].category == step(step(m, e1, now1).0, e2, now2).1[j].category,
    ensures
        sat_sub(
            step(step(m, e1, now1).0, e2, now2).1[j].occurred_at_ms,
            step(m, e1, now1).1[i].occurred_at_ms,
        ) >= m.throttle_window_ms,
{
    let (m1, o1) = step(m, e1, now1);
    let (m2, o2) = step(m1, e2, now2);
    let seg1 = rule_segment(e1);
    let c1 = candidates(e1, metrics_of(seq![seg1]), metrics_of(keep_recent(m.segments, seg1, m.max_recent_segments)));
    let seg2 = rule_segment(e2);
    let c2 = candidates(e2, metrics_of(seq![seg2]), metrics_of(keep_recent(m1.segments, seg2, m1.max_recent_segments)));
    lemma_candidates_distinct(e1, metrics_of(seq![seg1]), metrics_of(keep_recent(m.segments, seg1, m.max_recent_segments)));
    lemma_candidates_distinct(e2, metrics_of(seq![seg2]), metrics_of(keep_recent(m1.segments, seg2, m1.max_recent_segments)));
    lemma_throttle(m.throttle, c1, now1, m.throttle_window_ms, m.wall_clock_throttle_ms);
    lemma_throttle(m1.throttle, c2, now2, m1.throttle_window_ms, m1.wall_clock_throttle_ms);
    assert(o2[j].category == o1[i].category);
    assert(m1.throttle.last(o1[i].category) == Some(o1[i].occurred_at_ms));
}

/// With a wall-clock throttle, one segment shows at most one nudge.
pub proof fn law_one_nudge_per_burst(m: PipelineModel, e: TranscriptStreamEvent, now: u64)
    requires
        model_wf(m),
        m.wall_clock_throttle_ms > 0,
    ensures
        step(m, e, now).1.len() <= 1,
{
    let seg = rule_segment(e);
    let recent = keep_recent(m.segments, seg, m.max_recent_segments);
    lemma_candidates_distinct(e, metrics_of(seq![seg]), metrics_of(recent));
    lemma_throttle(
        m.throttle,
        candidates(e, metrics_of(seq![seg]), metrics_of(recent)),
        now,
        m.throttle_window_ms,
        m.wall_clock_throttle_ms,
    );
}

/// Nudges shown for consecutive segments are at least the wall-clock
/// throttle apart in wall-clock time.
pub proof fn law_wall_clock_spacing(
    m: PipelineModel,
    e1: TranscriptStreamEvent,
    now1: u64,
    e2: TranscriptStreamEvent,
    now2: u64,
)
    requires
        model_wf(m),
        step(m, e1, now1).1.len() > 0,
        step(step(m, e1, now1).0, e2, now2).1.len() > 0,
    ensures
        sat_sub(now2, now1) >= m.wall_clock_throttle_ms,
{
    let (m1, o1) = step(m, e1, now1);
    let seg1 = rule_segment(e1);
    let r1 = keep_recent(m.segments, seg1, m.max_recent_segments);
    let seg2 = rule_segment(e2);
    let r2 = keep_recent(m1.segments, seg2, m1.max_recent_segments);
    lemma_candidates_distinct(e1, metrics_of(seq![seg1]), metrics_of(r1));
    lemma_candidates_distinct(e2, metrics_of(seq![seg2]), metrics_of(r2));
    lemma_throttle(m.throttle, candidates(e1, metrics_of(seq![seg1]), metrics_of(r1)), now1, m.throttle_window_ms, m.wall_clock_throttle_ms);
    lemma_throttle(m1.throttle, candidates(e2, metrics_of(seq![seg2]), metrics_of(r2)), now2, m1.throttle_window_ms, m1.wall_clock_throttle_ms);
}

/// The pipeline remembers the new segment last, after at most the
/// configured number of earlier ones, which keep their order.
pub proof fn law_recent_history(m: PipelineModel, e: TranscriptStreamEvent, now: u64)
    requires
        model_wf(m),
    ensures
        model_wf(step(m, e, now).0),
        step(m, e, now).0.segments.last() == rule_segment(e),
        step(m, e, now).0.segments.drop_last() =~= m.segments.subrange(
            m.segments.len() + 1 - step(m, e, now).0.segments.len(),
            m.segments.len() as int,
        ),
{
}

/// A transcript sink that also runs the user's own segments through a
/// nudge pipeline and hands the nudges to a nudge sink.
pub struct NudgeTranscriptEventSink<T, N> {
    transcript_sink: T,
    nudge_sink: N,
    pipeline: LiveNudgePipeline,
}

impl<T, N> NudgeTranscriptEventSink<T, N> {
    pub closed spec fn pipeline_model(&self) -> PipelineModel {
        self.pipeline.model()
    }

    /// The nudge sink as it stands.
    pub closed spec fn nudge_sink_state(&self) -> N {
        self.nudge_sink
    }

    pub fn new(transcript_sink: T, nudge_sink: N, pipeline: LiveNudgePipeline) -> (r: Self)
        ensures
            r.pipeline_model() == pipeline.model(),
    {
        NudgeTranscriptEventSink { transcript_sink, nudge_sink, pipeline }
    }
}

impl<T, N: NudgeEventSink> NudgeTranscriptEventSink<T, N> {
    /// What follows forwarding `event` to the transcript sink, given what
    /// the transcript sink answered: its error is returned as is, with the
    /// pipeline and the nudge sink untouched; when it accepted, the user's own
    /// segment goes through the pipeline and every nudge is handed to the
    /// nudge sink, whose refusals are dropped, and the answer is `Ok`.
    /// Another speaker's segment changes nothing.
    pub fn handle_forwarded_segment(
        &mut self,
        forwarded: Result<(), AppError>,
        event: &TranscriptStreamEvent,
    ) -> (r: Result<(), AppError>)
        ensures
            r == forwarded,
            (r is Err || !is_user_label(opt_view(event.segment.speaker_label)))
                ==> final(self).pipeline_model() == old(self).pipeline_model(),
            (r is Err || !is_user_label(opt_view(event.segment.speaker_label)))
                ==> final(self).nudge_sink_state() == old(self).nudge_sink_state(),
            (r is Ok && is_user_label(opt_view(event.segment.speaker_label))) ==> exists|now: u64|
                (#[trigger] step(old(self).pipeline_model(), *event, now)).0
                    == final(self).pipeline_model(),
    {
        if forwarded.is_err() {
            return forwarded;
        }
        if !segment_is_users(&event.segment) {
            return forwarded;
        }
        let nudges = self.pipeline.process_segment(event);
        let ghost after = self.pipeline.model();
        let mut i: usize = 0;
        while i < nudges.len()
            invariant
                i <= nudges@.len(),
                self.pipeline.model() == after,
            decreases nudges.len() - i,
        {
            let n = nudges[i].clone();
            let _ = self.nudge_sink.emit_nudge(n);
            i = i + 1;
        }
        forwarded
    }
}

impl<T: TranscriptEventSink, N: NudgeEventSink> TranscriptEventSink for NudgeTranscriptEventSink<
    T,
    N,
> {
    /// Forwards the segment; if that worked and the segment is the user's
    /// own speech, runs it through the pipeline and hands on every nudge. A
    /// nudge the nudge sink refuses is dropped; it does not fail the segment.
    fn emit_segment(&mut self, event: TranscriptStreamEvent) -> (r: Result<(), AppError>)
        ensures
            (r is Err || !is_user_label(opt_view(event.segment.speaker_label)))
                ==> final(self).pipeline_model() == old(self).pipeline_model(),
            (r is Err || !is_user_label(opt_view(event.segment.speaker_label)))
                ==> final(self).nudge_sink_state() == old(self).nudge_sink_state(),
            (r is Ok && is_user_label(opt_view(event.segment.speaker_label))) ==> exists|now: u64|
                (#[trigger] step(old(self).pipeline_model(), event, now)).0
                    == final(self).pipeline_model(),
    {
        let forwarded = self.transcript_sink.emit_segment(event.clone());
        self.handle_forwarded_segment(forwarded, &event)
    }

    /// Forwards the summary to the transcript sink; the pipeline and the
    /// nudge sink are left as they are.
    fn complete(&mut self, summary: TranscriptStreamSummary) -> (r: Result<(), AppError>)
        ensures
            final(self).pipeline_model() == old(self).pipeline_model(),
            final(self).nudge_sink_state() == old(self).nudge_sink_state(),
    {
        self.transcript_sink.complete(summary)
    }

    /// The transcript sink's count of dropped events.
    fn dropped_event_count(&self) -> (r: u64) {
        self.transcript_sink.dropped_event_count()
    }
}

} // verus!
