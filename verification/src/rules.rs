//! Deterministic transcript metrics: how many words were spoken, how many of
//! them were filler words, how often commitments were hedged, how long the
//! speaker talked in total and in one go.

use vstd::prelude::*;

use crate::text::{
    ascii_lower, chars_equal, chars_of, is_whitespace, is_ws, lower_seq, lowercase_chars,
};

verus! {

/// One transcript segment as the metrics see it.
#[derive(Debug, Clone, PartialEq, Eq)]
pub struct RuleTranscriptSegment {
    pub text: String,
    pub started_at_ms: u64,
    pub ended_at_ms: u64,
}

/// Counts over a run of segments. Totals saturate at `u64::MAX`.
#[derive(Debug, Clone, Copy, PartialEq, Eq)]
pub struct MetricsSummary {
    pub word_count: u64,
    pub filler_word_count: u64,
    pub hedging_phrase_count: u64,
    pub speaking_duration_ms: u64,
    pub longest_monologue_ms: u64,
}

/// The words of `s`: its maximal runs of non-whitespace characters, in
/// order. A non-space character after a non-space character extends the
/// current word; any other non-space character starts a new one.
pub open spec fn words(s: Seq<char>) -> Seq<Seq<char>>
    decreases s.len(),
{
    if s.len() == 0 {
        seq![]
    } else {
        let w = words(s.drop_last());
        let c = s.last();
        if is_ws(c) {
            w
        } else if s.len() >= 2 && !is_ws(s[s.len() - 2]) {
            w.update(w.len() - 1, w.last().push(c))
        } else {
            w.push(seq![c])
        }
    }
}

/// Characters that belong to a word rather than to the punctuation around it.
pub open spec fn is_word_char(c: char) -> bool {
    ||| ('a' <= c && c <= 'z')
    ||| ('A' <= c && c <= 'Z')
    ||| ('0' <= c && c <= '9')
    ||| c == '\''
    ||| (c as u32) >= 128
}

pub open spec fn strip_front(s: Seq<char>) -> Seq<char>
    decreases s.len(),
{
    if s.len() > 0 && !is_word_char(s[0]) {
        strip_front(s.drop_first())
    } else {
        s
    }
}

pub open spec fn strip_back(s: Seq<char>) -> Seq<char>
    decreases s.len(),
{
    if s.len() > 0 && !is_word_char(s.last()) {
        strip_back(s.drop_last())
    } else {
        s
    }
}

/// A word as the rules compare it: surrounding punctuation dropped, ASCII
/// letters lower-cased ("Um," is "um").
pub open spec fn normalize(w: Seq<char>) -> Seq<char> {
    lower_seq(strip_back(strip_front(w)))
}

pub open spec fn normalized_words(s: Seq<char>) -> Seq<Seq<char>> {
    words(s).map_values(|w: Seq<char>| normalize(w))
}

/// Filler words: "um", "uh", "er", "ah", "like".
pub open spec fn is_filler(w: Seq<char>) -> bool {
    ||| w == seq!['u', 'm']
    ||| w == seq!['u', 'h']
    ||| w == seq!['e', 'r']
    ||| w == seq!['a', 'h']
    ||| w == seq!['l', 'i', 'k', 'e']
}

/// One-word hedges: "maybe", "probably", "perhaps".
pub open spec fn is_single_hedge(w: Seq<char>) -> bool {
    ||| w == seq!['m', 'a', 'y', 'b', 'e']
    ||| w == seq!['p', 'r', 'o', 'b', 'a', 'b', 'l', 'y']
    ||| w == seq!['p', 'e', 'r', 'h', 'a', 'p', 's']
}

/// Two-word hedges: "i think", "i guess", "sort of", "kind of".
pub open spec fn is_pair_hedge(a: Seq<char>, b: Seq<char>) -> bool {
    ||| (a == seq!['i'] && b == seq!['t', 'h', 'i', 'n', 'k'])
    ||| (a == seq!['i'] && b == seq!['g', 'u', 'e', 's', 's'])
    ||| (a == seq!['s', 'o', 'r', 't'] && b == seq!['o', 'f'])
    ||| (a == seq!['k', 'i', 'n', 'd'] && b == seq!['o', 'f'])
}

/// Whether the hedge count goes up at the last of `ws`: a one-word hedge,
/// or the second word of a two-word hedge.
pub open spec fn hedge_ends_at_last(ws: Seq<Seq<char>>) -> bool {
    ||| is_single_hedge(ws.last())
    ||| (ws.len() >= 2 && is_pair_hedge(ws[ws.len() - 2], ws.last()))
}

pub open spec fn filler_count(ws: Seq<Seq<char>>) -> nat
    decreases ws.len(),
{
    if ws.len() == 0 {
        0
    } else {
        filler_count(ws.drop_last()) + if is_filler(ws.last()) {
            1nat
        } else {
            0nat
        }
    }
}

pub open spec fn hedge_count(ws: Seq<Seq<char>>) -> nat
    decreases ws.len(),
{
    if ws.len() == 0 {
        0
    } else {
        hedge_count(ws.drop_last()) + if hedge_ends_at_last(ws) {
            1nat
        } else {
            0nat
        }
    }
}

/// How long a segment lasted; zero when its end is before its start.
pub open spec fn segment_ms(s: RuleTranscriptSegment) -> int {
    if s.ended_at_ms >= s.started_at_ms {
        s.ended_at_ms - s.started_at_ms
    } else {
        0
    }
}

pub open spec fn segment_words(s: RuleTranscriptSegment) -> Seq<Seq<char>> {
    normalized_words(s.text@)
}

pub open spec fn total_words(segs: Seq<RuleTranscriptSegment>) -> int
    decreases segs.len(),
{
    if segs.len() == 0 {
        0
    } else {
        total_words(segs.drop_last()) + segment_words(segs.last()).len()
    }
}

pub open spec fn total_fillers(segs: Seq<RuleTranscriptSegment>) -> int
    decreases segs.len(),
{
    if segs.len() == 0 {
        0
    } else {
        total_fillers(segs.drop_last()) + filler_count(segment_words(segs.last()))
    }
}

pub open spec fn total_hedges(segs: Seq<RuleTranscriptSegment>) -> int
    decreases segs.len(),
{
    if segs.len() == 0 {
        0
    } else {
        total_hedges(segs.drop_last()) + hedge_count(segment_words(segs.last()))
    }
}

pub open spec fn total_ms(segs: Seq<RuleTranscriptSegment>) -> int
    decreases segs.len(),
{
    if segs.len() == 0 {
        0
    } else {
        total_ms(segs.drop_last()) + segment_ms(segs.last())
    }
}

pub open spec fn longest_ms(segs: Seq<RuleTranscriptSegment>) -> int
    decreases segs.len(),
{
    if segs.len() == 0 {
        0
    } else {
        let rest = longest_ms(segs.drop_last());
        let here = segment_ms(segs.last());
        if here > rest {
            here
        } else {
            rest
        }
    }
}

/// `x` capped at `u64::MAX`.
pub open spec fn saturated(x: int) -> int {
    if x > u64::MAX {
        u64::MAX as int
    } else {
        x
    }
}

/// The metrics of a run of segments. Words, fillers and hedges are counted
/// within each segment; a two-word hedge does not span two segments.
pub open spec fn metrics_of(segs: Seq<RuleTranscriptSegment>) -> MetricsSummary {
    MetricsSummary {
        word_count: saturated(total_words(segs)) as u64,
        filler_word_count: saturated(total_fillers(segs)) as u64,
        hedging_phrase_count: saturated(total_hedges(segs)) as u64,
        speaking_duration_ms: saturated(total_ms(segs)) as u64,
        longest_monologue_ms: longest_ms(segs) as u64,
    }
}

/// Faster than 180 words per minute of speaking time.
pub open spec fn pace_is_fast(m: MetricsSummary) -> bool {
    m.speaking_duration_ms > 0 && m.word_count * 60_000 > 180 * m.speaking_duration_ms
}

/// Slower than 110 words per minute of speaking time.
pub open spec fn pace_is_slow(m: MetricsSummary) -> bool {
    m.speaking_duration_ms > 0 && m.word_count * 60_000 < 110 * m.speaking_duration_ms
}

pub open spec fn views(v: Seq<Vec<char>>) -> Seq<Seq<char>> {
    v.map_values(|w: Vec<char>| w@)
}

/// Splits `s` into its words.
pub fn split_words(s: &Vec<char>) -> (r: Vec<Vec<char>>)
    ensures
        views(r@) == words(s@),
{
    let mut out: Vec<Vec<char>> = Vec::new();
    let mut cur: Vec<char> = Vec::new();
    let mut i: usize = 0;
    while i < s.len()
        invariant
            i <= s@.len(),
            cur@.len() > 0 <==> (i > 0 && !is_ws(s@[i - 1])),
            words(s@.take(i as int)) == if cur@.len() > 0 {
                views(out@).push(cur@)
            } else {
                views(out@)
            },
        decreases s.len() - i,
    {
        let c = s[i];
        assert(s@.take(i + 1).drop_last() =~= s@.take(i as int));
        let ghost prev_out = views(out@);
        let ghost prev_cur = cur@;
        if is_whitespace(c) {
            if cur.len() > 0 {
                let done = cur;
                cur = Vec::new();
                out.push(done);
                assert(views(out@) =~= prev_out.push(prev_cur));
            }
        } else {
            cur.push(c);
            proof {
                if prev_cur.len() > 0 {
                    assert(prev_out.push(prev_cur).update(prev_out.len() as int, prev_cur.push(c))
                        =~= prev_out.push(cur@));
                } else {
                    assert(cur@ =~= seq![c]);
                }
            }
        }
        i = i + 1;
    }
    let ghost prev_out = views(out@);
    let ghost prev_cur = cur@;
    if cur.len() > 0 {
        out.push(cur);
        assert(views(out@) =~= prev_out.push(prev_cur));
    }
    assert(s@.take(s@.len() as int) =~= s@);
    out
}

fn word_char(c: char) -> (b: bool)
    ensures
        b == is_word_char(c),
{
    ('a' <= c && c <= 'z') || ('A' <= c && c <= 'Z') || ('0' <= c && c <= '9') || c == '\''
        || (c as u32) >= 128
}

/// The normalized form of one word.
pub fn normalize_word(w: &Vec<char>) -> (r: Vec<char>)
    ensures
        r@ == normalize(w@),
{
    let n = w.len();
    let mut i: usize = 0;
    assert(w@.subrange(0, n as int) =~= w@);
    while i < n && !word_char(w[i])
        invariant
            n == w@.len(),
            i <= n,
            strip_front(w@) == strip_front(w@.subrange(i as int, n as int)),
        decreases n - i,
    {
        assert(w@.subrange(i + 1, n as int) =~= w@.subrange(i as int, n as int).drop_first());
        i = i + 1;
    }
    let mut j: usize = n;
    while j > i && !word_char(w[j - 1])
        invariant
            n == w@.len(),
            i <= j <= n,
            strip_back(w@.subrange(i as int, n as int)) == strip_back(
                w@.subrange(i as int, j as int),
            ),
        decreases j,
    {
        assert(w@.subrange(i as int, j - 1) =~= w@.subrange(i as int, j as int).drop_last());
        j = j - 1;
    }
    let mut core: Vec<char> = Vec::new();
    let mut k: usize = i;
    while k < j
        invariant
            i <= k <= j <= w@.len(),
            core@ == w@.subrange(i as int, k as int),
        decreases j - k,
    {
        core.push(w[k]);
        k = k + 1;
        assert(core@ =~= w@.subrange(i as int, k as int));
    }
    lowercase_chars(&core)
}

fn word_is(w: &Vec<char>, lit: Vec<char>) -> (r: bool)
    ensures
        r == (w@ == lit@),
{
    chars_equal(w, &lit)
}

pub fn is_filler_word(w: &Vec<char>) -> (r: bool)
    ensures
        r == is_filler(w@),
{
    word_is(w, vec!['u', 'm']) || word_is(w, vec!['u', 'h']) || word_is(w, vec!['e', 'r'])
        || word_is(w, vec!['a', 'h']) || word_is(w, vec!['l', 'i', 'k', 'e'])
}

pub fn is_single_hedge_word(w: &Vec<char>) -> (r: bool)
    ensures
        r == is_single_hedge(w@),
{
    word_is(w, vec!['m', 'a', 'y', 'b', 'e']) || word_is(
        w,
        vec!['p', 'r', 'o', 'b', 'a', 'b', 'l', 'y'],
    ) || word_is(w, vec!['p', 'e', 'r', 'h', 'a', 'p', 's'])
}

pub fn is_pair_hedge_words(a: &Vec<char>, b: &Vec<char>) -> (r: bool)
    ensures
        r == is_pair_hedge(a@, b@),
{
    let i_word = vec!['i'];
    assert(i_word@ == seq!['i']);
    let a_is_i = word_is(a, i_word);
    let think = word_is(b, vec!['t', 'h', 'i', 'n', 'k']);
    let guess = word_is(b, vec!['g', 'u', 'e', 's', 's']);
    let sort = word_is(a, vec!['s', 'o', 'r', 't']);
    let kind = word_is(a, vec!['k', 'i', 'n', 'd']);
    let of = word_is(b, vec!['o', 'f']);
    (a_is_i && think) || (a_is_i && guess) || (sort && of) || (kind && of)
}

impl RuleTranscriptSegment {
    /// A copy of this segment.
    pub fn duplicate(&self) -> (r: Self)
        ensures
            r == *self,
    {
        RuleTranscriptSegment {
            text: self.text.clone(),
            started_at_ms: self.started_at_ms,
            ended_at_ms: self.ended_at_ms,
        }
    }
}

/// The normalized words of a transcript text.
pub fn text_words(text: &String) -> (r: Vec<Vec<char>>)
    ensures
        views(r@) == normalized_words(text@),
{
    let cs = chars_of(text.as_str());
    let ws = split_words(&cs);
    let mut out: Vec<Vec<char>> = Vec::new();
    let mut i: usize = 0;
    while i < ws.len()
        invariant
            i <= ws@.len(),
            views(ws@) == words(text@),
            views(out@) == views(ws@).take(i as int).map_values(|w: Seq<char>| normalize(w)),
        decreases ws.len() - i,
    {
        let n = normalize_word(&ws[i]);
        let ghost prev = views(out@);
        assert(views(ws@)[i as int] == ws@[i as int]@);
        out.push(n);
        assert(views(out@) =~= prev.push(normalize(ws@[i as int]@)));
        i = i + 1;
        assert(views(out@) =~= views(ws@).take(i as int).map_values(|w: Seq<char>| normalize(w)));
    }
    assert(views(ws@).take(i as int) =~= views(ws@));
    out
}

fn count_fillers(ws: &Vec<Vec<char>>) -> (r: u64)
    ensures
        r == filler_count(views(ws@)),
{
    let mut r: u64 = 0;
    let mut i: usize = 0;
    while i < ws.len()
        invariant
            i <= ws@.len(),
            r <= i,
            r == filler_count(views(ws@).take(i as int)),
        decreases ws.len() - i,
    {
        assert(views(ws@).take(i + 1).drop_last() =~= views(ws@).take(i as int));
        if is_filler_word(&ws[i]) {
            r = r + 1;
        }
        i = i + 1;
    }
    assert(views(ws@).take(i as int) =~= views(ws@));
    r
}

fn count_hedges(ws: &Vec<Vec<char>>) -> (r: u64)
    ensures
        r == hedge_count(views(ws@)),
{
    let mut r: u64 = 0;
    let mut i: usize = 0;
    while i < ws.len()
        invariant
            i <= ws@.len(),
            r <= i,
            r == hedge_count(views(ws@).take(i as int)),
        decreases ws.len() - i,
    {
        let ghost prefix = views(ws@).take(i + 1);
        assert(prefix.drop_last() =~= views(ws@).take(i as int));
        let hit = if is_single_hedge_word(&ws[i]) {
            true
        } else if i >= 1 {
            is_pair_hedge_words(&ws[i - 1], &ws[i])
        } else {
            false
        };
        assert(hit == hedge_ends_at_last(prefix));
        if hit {
            r = r + 1;
        }
        i = i + 1;
    }
    assert(views(ws@).take(i as int) =~= views(ws@));
    r
}

/// The metrics of a run of transcript segments.
pub fn calculate_metrics(segments: &[RuleTranscriptSegment]) -> (r: MetricsSummary)
    ensures
        r == metrics_of(segments@),
{
    let mut words: u64 = 0;
    let mut fillers: u64 = 0;
    let mut hedges: u64 = 0;
    let mut speaking: u64 = 0;
    let mut longest: u64 = 0;
    let mut i: usize = 0;
    while i < segments.len()
        invariant
            i <= segments@.len(),
            words == saturated(total_words(segments@.take(i as int))),
            fillers == saturated(total_fillers(segments@.take(i as int))),
            hedges == saturated(total_hedges(segments@.take(i as int))),
            speaking == saturated(total_ms(segments@.take(i as int))),
            longest == longest_ms(segments@.take(i as int)),
        decreases segments.len() - i,
    {
        let seg = &segments[i];
        assert(segments@.take(i + 1).drop_last() =~= segments@.take(i as int));
        let ws = text_words(&seg.text);
        let n = ws.len() as u64;
        let f = count_fillers(&ws);
        let h = count_hedges(&ws);
        let d: u64 = if seg.ended_at_ms >= seg.started_at_ms {
            seg.ended_at_ms - seg.started_at_ms
        } else {
            0
        };
        words = words.saturating_add(n);
        fillers = fillers.saturating_add(f);
        hedges = hedges.saturating_add(h);
        speaking = speaking.saturating_add(d);
        if d > longest {
            longest = d;
        }
        i = i + 1;
    }
    assert(segments@.take(i as int) =~= segments@);
    MetricsSummary {
        word_count: words,
        filler_word_count: fillers,
        hedging_phrase_count: hedges,
        speaking_duration_ms: speaking,
        longest_monologue_ms: longest,
    }
}

impl MetricsSummary {
    /// Whether the speaker talked faster than 180 words per minute.
    pub fn is_fast_pace(&self) -> (r: bool)
        ensures
            r == pace_is_fast(*self),
    {
        self.speaking_duration_ms > 0 && (self.word_count as u128) * 60_000 > 180
            * (self.speaking_duration_ms as u128)
    }

    /// Whether the speaker talked slower than 110 words per minute.
    pub fn is_slow_pace(&self) -> (r: bool)
        ensures
            r == pace_is_slow(*self),
    {
        self.speaking_duration_ms > 0 && (self.word_count as u128) * 60_000 < 110
            * (self.speaking_duration_ms as u128)
    }
}

/// Appending one of the one-word hedges "maybe", "probably" or "perhaps" to
/// any run of words raises its hedge count by exactly one.
pub proof fn law_one_word_hedge_counts_once(ws: Seq<Seq<char>>, w: Seq<char>)
    requires
        w == seq!['m', 'a', 'y', 'b', 'e'] || w == seq!['p', 'r', 'o', 'b', 'a', 'b', 'l', 'y']
            || w == seq!['p', 'e', 'r', 'h', 'a', 'p', 's'],
    ensures
        hedge_count(ws.push(w)) == hedge_count(ws) + 1,
{
    assert(ws.push(w).drop_last() =~= ws);
}

/// A segment whose text is a single word counts one hedging phrase exactly
/// when that word, with its punctuation dropped and lower-cased, is "maybe",
/// "probably" or "perhaps" ("Probably," and "PERHAPS." included), and no
/// hedge otherwise; it counts one word either way.
pub proof fn law_single_word_segment_hedges(seg: RuleTranscriptSegment, w: Seq<char>)
    requires
        words(seg.text@) == seq![w],
    ensures
        metrics_of(seq![seg]).word_count == 1,
        metrics_of(seq![seg]).hedging_phrase_count == (if normalize(w) == seq![
            'm',
            'a',
            'y',
            'b',
            'e',
        ] || normalize(w) == seq!['p', 'r', 'o', 'b', 'a', 'b', 'l', 'y'] || normalize(w)
            == seq!['p', 'e', 'r', 'h', 'a', 'p', 's'] {
            1u64
        } else {
            0u64
        }),
{
    let ws = segment_words(seg);
    assert(ws =~= seq![normalize(w)]);
    assert(ws.drop_last() =~= Seq::<Seq<char>>::empty());
    assert(hedge_count(Seq::<Seq<char>>::empty()) == 0);
    let segs = seq![seg];
    assert(segs.drop_last() =~= Seq::<RuleTranscriptSegment>::empty());
    assert(segs.last() == seg);
    assert(total_hedges(Seq::<RuleTranscriptSegment>::empty()) == 0);
    assert(total_words(Seq::<RuleTranscriptSegment>::empty()) == 0);
    assert(total_hedges(segs) == hedge_count(ws));
    assert(total_words(segs) == 1);
}

} // verus!
