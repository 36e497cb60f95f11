//! Finding local transcription tools and models: which directories may be
//! searched, which files qualify for each kind of model, how candidates are
//! ranked, and how detected paths fill in settings the user left empty.

use vstd::prelude::*;

use crate::domain::ResonanceSettings;
use crate::paths::{file_name, file_name_chars};
use crate::text::{
    chars_equal, chars_of, contains, contains_chars, ends_with, ends_with_chars, is_blank,
    lower_seq, lowercase_chars, occurs_at, starts_with, starts_with_chars, all_whitespace,
};

verus! {

/// Homebrew's install locations for `whisper-cli`, in the order tried.
pub const WHISPER_BINARY_CANDIDATES: [&'static str; 2] = [
    "/opt/homebrew/bin/whisper-cli",
    "/usr/local/bin/whisper-cli",
];

/// How long Spotlight gets to answer.
pub const SPOTLIGHT_TIMEOUT_MS: u64 = 5_000;

/// How deep the fallback directory walk goes.
pub const MAX_SEARCH_DEPTH: usize = 5;

/// Paths found on this machine, any of which may be missing.
#[derive(Debug, Clone, PartialEq, Eq)]
pub struct DetectedLocalPaths {
    pub transcriber_bin_path: Option<String>,
    pub transcriber_model_path: Option<String>,
    pub speaker_embedding_model_path: Option<String>,
    pub speaker_segmentation_model_path: Option<String>,
}

#[derive(Debug, Clone, Copy, PartialEq, Eq, Structural)]
pub enum ModelKind {
    Whisper,
    SpeakerEmbedding,
    SpeakerSegmentation,
}

/// A settings path counts as missing when it is absent or blank.
pub open spec fn is_missing(path: Option<String>) -> bool {
    match path {
        None => true,
        Some(p) => is_blank(p@),
    }
}

pub fn missing_path(path: &Option<String>) -> (r: bool)
    ensures
        r == is_missing(*path),
{
    match path {
        None => true,
        Some(p) => {
            let cs = chars_of(p.as_str());
            all_whitespace(&cs)
        },
    }
}

fn copy_path(p: &Option<String>) -> (r: Option<String>)
    ensures
        r == *p,
{
    match p {
        Some(s) => Some(s.clone()),
        None => None,
    }
}

/// Fills each path the settings leave missing from what was detected, and
/// leaves every other field alone.
pub fn hydrate_settings_with_detected_paths(
    settings: &mut ResonanceSettings,
    detected: &DetectedLocalPaths,
)
    ensures
        final(settings).transcriber_bin_path == if is_missing(old(settings).transcriber_bin_path) {
            detected.transcriber_bin_path
        } else {
            old(settings).transcriber_bin_path
        },
        final(settings).transcriber_model_path == if is_missing(
            old(settings).transcriber_model_path,
        ) {
            detected.transcriber_model_path
        } else {
            old(settings).transcriber_model_path
        },
        final(settings).speaker_embedding_model_path == if is_missing(
            old(settings).speaker_embedding_model_path,
        ) {
            detected.speaker_embedding_model_path
        } else {
            old(settings).speaker_embedding_model_path
        },
        final(settings).speaker_segmentation_model_path == if is_missing(
            old(settings).speaker_segmentation_model_path,
        ) {
            detected.speaker_segmentation_model_path
        } else {
            old(settings).speaker_segmentation_model_path
        },
        (ResonanceSettings {
            transcriber_bin_path: old(settings).transcriber_bin_path,
            transcriber_model_path: old(settings).transcriber_model_path,
            speaker_embedding_model_path: old(settings).speaker_embedding_model_path,
            speaker_segmentation_model_path: old(settings).speaker_segmentation_model_path,
            ..*final(settings)
        }) == *old(settings),
{
    if missing_path(&settings.transcriber_bin_path) {
        settings.transcriber_bin_path = copy_path(&detected.transcriber_bin_path);
    }
    if missing_path(&settings.transcriber_model_path) {
        settings.transcriber_model_path = copy_path(&detected.transcriber_model_path);
    }
    if missing_path(&settings.speaker_embedding_model_path) {
        settings.speaker_embedding_model_path = copy_path(&detected.speaker_embedding_model_path);
    }
    if missing_path(&settings.speaker_segmentation_model_path) {
        settings.speaker_segmentation_model_path = copy_path(
            &detected.speaker_segmentation_model_path,
        );
    }
}

/// The settings with every missing path filled from `detected`.
pub fn hydrate_settings_with_local_defaults(
    settings: ResonanceSettings,
    detected: &DetectedLocalPaths,
) -> (r: ResonanceSettings)
    ensures
        r.transcriber_bin_path == if is_missing(settings.transcriber_bin_path) {
            detected.transcriber_bin_path
        } else {
            settings.transcriber_bin_path
        },
        r.transcriber_model_path == if is_missing(settings.transcriber_model_path) {
            detected.transcriber_model_path
        } else {
            settings.transcriber_model_path
        },
        r.speaker_embedding_model_path == if is_missing(settings.speaker_embedding_model_path) {
            detected.speaker_embedding_model_path
        } else {
            settings.speaker_embedding_model_path
        },
        r.speaker_segmentation_model_path == if is_missing(
            settings.speaker_segmentation_model_path,
        ) {
            detected.speaker_segmentation_model_path
        } else {
            settings.speaker_segmentation_model_path
        },
        (ResonanceSettings {
            transcriber_bin_path: settings.transcriber_bin_path,
            transcriber_model_path: settings.transcriber_model_path,
            speaker_embedding_model_path: settings.speaker_embedding_model_path,
            speaker_segmentation_model_path: settings.speaker_segmentation_model_path,
            ..r
        }) == settings,
{
    let mut s = settings;
    hydrate_settings_with_detected_paths(&mut s, detected);
    s
}

/// The runs of non-separator characters of a path, in order.
pub open spec fn segments(s: Seq<char>) -> Seq<Seq<char>>
    decreases s.len(),
{
    if s.len() == 0 {
        seq![]
    } else {
        let w = segments(s.drop_last());
        let c = s.last();
        if c == '/' {
            w
        } else if s.len() >= 2 && s[s.len() - 2] != '/' {
            w.update(w.len() - 1, w.last().push(c))
        } else {
            w.push(seq![c])
        }
    }
}

/// `parts` without the `.` parts.
pub open spec fn drop_dots(parts: Seq<Seq<char>>) -> Seq<Seq<char>>
    decreases parts.len(),
{
    if parts.len() == 0 {
        seq![]
    } else {
        let rest = drop_dots(parts.drop_last());
        if parts.last() == seq!['.'] {
            rest
        } else {
            rest.push(parts.last())
        }
    }
}

/// The named parts of a path: what lies between its separators, with empty
/// parts and `.` dropped, in order.
pub open spec fn path_parts(s: Seq<char>) -> Seq<Seq<char>> {
    drop_dots(segments(s))
}

pub open spec fn is_absolute(s: Seq<char>) -> bool {
    s.len() > 0 && s[0] == '/'
}

/// A path with no parent: the empty path and the filesystem root.
pub open spec fn has_no_parent(s: Seq<char>) -> bool {
    s.len() == 0 || (is_absolute(s) && path_parts(s).len() == 0)
}

/// `a` is `b` or lies above it: both absolute or both relative, and the
/// parts of `a` begin the parts of `b`.
pub open spec fn is_ancestor_or_self(a: Seq<char>, b: Seq<char>) -> bool {
    &&& is_absolute(a) == is_absolute(b)
    &&& path_parts(a).len() <= path_parts(b).len()
    &&& path_parts(b).take(path_parts(a).len() as int) == path_parts(a)
}

pub open spec fn same_path(a: Seq<char>, b: Seq<char>) -> bool {
    is_absolute(a) == is_absolute(b) && path_parts(a) == path_parts(b)
}

/// A directory is narrow enough to search unless it is the filesystem root
/// or the home directory lies strictly below it.
pub open spec fn searchable_root(root: Seq<char>, home: Option<Seq<char>>) -> bool {
    &&& !has_no_parent(root)
    &&& match home {
        Some(h) => !is_ancestor_or_self(root, h) || same_path(h, root),
        None => true,
    }
}

fn split_segments(s: &Vec<char>) -> (r: Vec<Vec<char>>)
    ensures
        crate::rules::views(r@) == segments(s@),
{
    let mut out: Vec<Vec<char>> = Vec::new();
    let mut cur: Vec<char> = Vec::new();
    let mut i: usize = 0;
    while i < s.len()
        invariant
            i <= s@.len(),
            cur@.len() > 0 <==> (i > 0 && s@[i - 1] != '/'),
            segments(s@.take(i as int)) == if cur@.len() > 0 {
                crate::rules::views(out@).push(cur@)
            } else {
                crate::rules::views(out@)
            },
        decreases s.len() - i,
    {
        let c = s[i];
        assert(s@.take(i + 1).drop_last() =~= s@.take(i as int));
        let ghost prev_out = crate::rules::views(out@);
        let ghost prev_cur = cur@;
        if c == '/' {
            if cur.len() > 0 {
                let done = cur;
                cur = Vec::new();
                out.push(done);
                assert(crate::rules::views(out@) =~= prev_out.push(prev_cur));
            }
        } else {
            cur.push(c);
            proof {
                if prev_cur.len() > 0 {
                    assert(prev_out.push(prev_cur).update(prev_out.len() as int, prev_cur.push(c))
                        =~= prev_out.push(cur@));
                } else {
                    assert(cur@ =~= seq![c]);
                }
            }
        }
        i = i + 1;
    }
    let ghost prev_out = crate::rules::views(out@);
    let ghost prev_cur = cur@;
    if cur.len() > 0 {
        out.push(cur);
        assert(crate::rules::views(out@) =~= prev_out.push(prev_cur));
    }
    assert(s@.take(s@.len() as int) =~= s@);
    out
}

/// The named parts of a path.
pub fn path_parts_of(s: &Vec<char>) -> (r: Vec<Vec<char>>)
    ensures
        crate::rules::views(r@) == path_parts(s@),
{
    let segs = split_segments(s);
    let mut out: Vec<Vec<char>> = Vec::new();
    let mut i: usize = 0;
    while i < segs.len()
        invariant
            i <= segs@.len(),
            crate::rules::views(segs@) == segments(s@),
            crate::rules::views(out@) == drop_dots(crate::rules::views(segs@).take(i as int)),
        decreases segs.len() - i,
    {
        let ghost all = crate::rules::views(segs@);
        assert(all.take(i + 1).drop_last() =~= all.take(i as int));
        assert(all[i as int] == segs@[i as int]@);
        let seg = &segs[i];
        let is_dot = seg.len() == 1 && seg[0] == '.';
        proof {
            if seg@.len() == 1 && seg@[0] == '.' {
                assert(seg@ =~= seq!['.']);
            }
        }
        if !is_dot {
            let ghost prev = crate::rules::views(out@);
            out.push(segs[i].clone());
            assert(crate::rules::views(out@) =~= prev.push(all[i as int]));
        }
        i = i + 1;
    }
    assert(crate::rules::views(segs@).take(i as int) =~= crate::rules::views(segs@));
    out
}

fn parts_equal(a: &Vec<Vec<char>>, b: &Vec<Vec<char>>, n: usize) -> (r: bool)
    requires
        n <= a@.len(),
        n <= b@.len(),
    ensures
        r == (crate::rules::views(a@).take(n as int) == crate::rules::views(b@).take(n as int)),
{
    let mut i: usize = 0;
    while i < n
        invariant
            n <= a@.len(),
            n <= b@.len(),
            i <= n,
            crate::rules::views(a@).take(i as int) == crate::rules::views(b@).take(i as int),
        decreases n - i,
    {
        if !chars_equal(&a[i], &b[i]) {
            assert(crate::rules::views(a@).take(n as int)[i as int] != crate::rules::views(
                b@,
            ).take(n as int)[i as int]);
            return false;
        }
        i = i + 1;
        assert(crate::rules::views(a@).take(i as int) =~= crate::rules::views(b@).take(i as int));
    }
    true
}

/// Whether a directory is narrow enough to search for models.
pub fn is_searchable_root(root: &str, home: Option<&str>) -> (r: bool)
    ensures
        r == searchable_root(
            root@,
            match home {
                Some(h) => Some(h@),
                None => None,
            },
        ),
{
    let rc = chars_of(root);
    let r_abs = rc.len() > 0 && rc[0] == '/';
    let r_parts = path_parts_of(&rc);
    if rc.len() == 0 || (r_abs && r_parts.len() == 0) {
        return false;
    }
    match home {
        None => true,
        Some(h) => {
            let hc = chars_of(h);
            let h_abs = hc.len() > 0 && hc[0] == '/';
            let h_parts = path_parts_of(&hc);
            let above = r_abs == h_abs && r_parts.len() <= h_parts.len() && parts_equal(
                &r_parts,
                &h_parts,
                r_parts.len(),
            );
            proof {
                assert(crate::rules::views(r_parts@).take(r_parts@.len() as int) =~= crate::rules::views(
                    r_parts@,
                ));
            }
            let same = r_abs == h_abs && r_parts.len() == h_parts.len() && parts_equal(
                &r_parts,
                &h_parts,
                r_parts.len(),
            );
            proof {
                if r_parts@.len() == h_parts@.len() {
                    assert(crate::rules::views(h_parts@).take(h_parts@.len() as int) =~= crate::rules::views(
                        h_parts@,
                    ));
                }
            }
            !above || same
        },
    }
}

/// Score of a Whisper model file name (lower-cased): `ggml-` files first,
/// then by size, `base-q5` best and `large` models demoted.
pub open spec fn whisper_score(n: Seq<char>) -> int {
    10 + (if starts_with(n, "ggml-"@) {
        20int
    } else {
        0int
    }) + (if contains(n, "base-q5"@) {
        120int
    } else if contains(n, "base"@) {
        110int
    } else if contains(n, "small-q5"@) {
        100int
    } else if contains(n, "small"@) {
        90int
    } else if contains(n, "medium"@) {
        60int
    } else if contains(n, "tiny"@) {
        40int
    } else {
        0int
    }) - (if contains(n, "large"@) {
        40int
    } else {
        0int
    })
}

pub open spec fn embedding_score(n: Seq<char>) -> int {
    10 + (if contains(n, "speaker"@) {
        50int
    } else {
        0int
    }) + (if contains(n, "embedding"@) {
        80int
    } else {
        0int
    }) - (if contains(n, "segmentation"@) {
        60int
    } else {
        0int
    })
}

pub open spec fn segmentation_score(n: Seq<char>) -> int {
    10 + (if contains(n, "segmentation"@) {
        90int
    } else {
        0int
    }) + (if contains(n, "pyannote"@) {
        70int
    } else {
        0int
    }) + (if contains(n, "speaker"@) {
        20int
    } else {
        0int
    }) - (if contains(n, "embedding"@) {
        60int
    } else {
        0int
    })
}

pub open spec fn name_score(n: Seq<char>, kind: ModelKind) -> int {
    match kind {
        ModelKind::Whisper => whisper_score(n),
        ModelKind::SpeakerEmbedding => embedding_score(n),
        ModelKind::SpeakerSegmentation => segmentation_score(n),
    }
}

/// The lower-cased file name of a path, or nothing.
pub open spec fn lower_file_name(path: Seq<char>) -> Seq<char> {
    match file_name(path) {
        Some(n) => lower_seq(n),
        None => seq![],
    }
}

/// Score of a candidate path: its file name's score, less 80 for build or
/// package directories and 10 for downloads.
pub open spec fn candidate_score(path: Seq<char>, kind: ModelKind) -> int {
    let p = lower_seq(path);
    name_score(lower_file_name(path), kind) - (if contains(p, "/target/"@) || contains(
        p,
        "/node_modules/"@,
    ) {
        80int
    } else {
        0int
    }) - (if contains(p, "/downloads/"@) {
        10int
    } else {
        0int
    })
}

fn has(s: &Vec<char>, needle: &str) -> (r: bool)
    ensures
        r == contains(s@, needle@),
{
    let n = chars_of(needle);
    contains_chars(s, &n)
}

fn score_name(n: &Vec<char>, kind: ModelKind) -> (r: i32)
    ensures
        r == name_score(n@, kind),
{
    match kind {
        ModelKind::Whisper => {
            let mut score: i32 = 10;
            let prefix = chars_of("ggml-");
            if starts_with_chars(n, &prefix) {
                score = score + 20;
            }
            if has(n, "base-q5") {
                score = score + 120;
            } else if has(n, "base") {
                score = score + 110;
            } else if has(n, "small-q5") {
                score = score + 100;
            } else if has(n, "small") {
                score = score + 90;
            } else if has(n, "medium") {
                score = score + 60;
            } else if has(n, "tiny") {
                score = score + 40;
            }
            if has(n, "large") {
                score = score - 40;
            }
            score
        },
        ModelKind::SpeakerEmbedding => {
            let mut score: i32 = 10;
            if has(n, "speaker") {
                score = score + 50;
            }
            if has(n, "embedding") {
                score = score + 80;
            }
            if has(n, "segmentation") {
                score = score - 60;
            }
            score
        },
        ModelKind::SpeakerSegmentation => {
            let mut score: i32 = 10;
            if has(n, "segmentation") {
                score = score + 90;
            }
            if has(n, "pyannote") {
                score = score + 70;
            }
            if has(n, "speaker") {
                score = score + 20;
            }
            if has(n, "embedding") {
                score = score - 60;
            }
            score
        },
    }
}

fn lower_name_of(p: &Vec<char>) -> (r: Vec<char>)
    ensures
        r@ == lower_file_name(p@),
{
    match file_name_chars(p) {
        Some(n) => lowercase_chars(&n),
        None => Vec::new(),
    }
}

/// How well a file fits as a model of `kind`.
pub fn score_candidate(path: &str, kind: ModelKind) -> (r: i32)
    ensures
        r == candidate_score(path@, kind),
{
    let pc = chars_of(path);
    let name = lower_name_of(&pc);
    let mut score = score_name(&name, kind);
    let lowered = lowercase_chars(&pc);
    if has(&lowered, "/target/") || has(&lowered, "/node_modules/") {
        score = score - 80;
    }
    if has(&lowered, "/downloads/") {
        score = score - 10;
    }
    score
}

/// Whether a file's name fits a model of `kind` (the file still has to
/// exist): Whisper models are `ggml-*.bin` or `ggml-*.gguf`, speaker models
/// `.onnx` files named for what they do.
pub open spec fn candidate_name_fits(path: Seq<char>, kind: ModelKind) -> bool {
    let n = lower_file_name(path);
    match kind {
        ModelKind::Whisper => (ends_with(n, ".bin"@) || ends_with(n, ".gguf"@)) && starts_with(
            n,
            "ggml-"@,
        ),
        ModelKind::SpeakerEmbedding => ends_with(n, ".onnx"@) && (contains(n, "embedding"@)
            || contains(n, "speaker"@)),
        ModelKind::SpeakerSegmentation => ends_with(n, ".onnx"@) && (contains(
            n,
            "segmentation"@,
        ) || contains(n, "pyannote"@) || contains(n, "speaker"@)),
    }
}

pub fn is_candidate_name(path: &str, kind: ModelKind) -> (r: bool)
    ensures
        r == candidate_name_fits(path@, kind),
{
    let pc = chars_of(path);
    let n = lower_name_of(&pc);
    let onnx = chars_of(".onnx");
    match kind {
        ModelKind::Whisper => {
            let bin = chars_of(".bin");
            let gguf = chars_of(".gguf");
            let ggml = chars_of("ggml-");
            (ends_with_chars(&n, &bin) || ends_with_chars(&n, &gguf)) && starts_with_chars(
                &n,
                &ggml,
            )
        },
        ModelKind::SpeakerEmbedding => ends_with_chars(&n, &onnx) && (has(&n, "embedding") || has(
            &n,
            "speaker",
        )),
        ModelKind::SpeakerSegmentation => ends_with_chars(&n, &onnx) && (has(&n, "segmentation")
            || has(&n, "pyannote") || has(&n, "speaker")),
    }
}

/// `a` comes before `b` character by character (a proper prefix first).
pub open spec fn char_order_less(a: Seq<char>, b: Seq<char>) -> bool
    decreases a.len(),
{
    if b.len() == 0 {
        false
    } else if a.len() == 0 {
        true
    } else if a[0] != b[0] {
        a[0] < b[0]
    } else {
        char_order_less(a.drop_first(), b.drop_first())
    }
}

/// `a` ranks above `b`: a higher score, then a shorter path in bytes, then
/// an earlier path.
pub open spec fn ranks_above(a: Seq<char>, b: Seq<char>, kind: ModelKind) -> bool {
    let sa = candidate_score(a, kind);
    let sb = candidate_score(b, kind);
    let la = vstd::utf8::encode_utf8(a).len();
    let lb = vstd::utf8::encode_utf8(b).len();
    ||| sa > sb
    ||| (sa == sb && la < lb)
    ||| (sa == sb && la == lb && char_order_less(a, b))
}

fn chars_less(a: &Vec<char>, b: &Vec<char>) -> (r: bool)
    ensures
        r == char_order_less(a@, b@),
{
    let mut i: usize = 0;
    assert(a@.skip(0) =~= a@);
    assert(b@.skip(0) =~= b@);
    while i < a.len() && i < b.len() && a[i] == b[i]
        invariant
            i <= a@.len(),
            i <= b@.len(),
            char_order_less(a@, b@) == char_order_less(a@.skip(i as int), b@.skip(i as int)),
        decreases a.len() - i,
    {
        assert(a@.skip(i + 1) =~= a@.skip(i as int).drop_first());
        assert(b@.skip(i + 1) =~= b@.skip(i as int).drop_first());
        i = i + 1;
    }
    if i == b.len() {
        false
    } else if i == a.len() {
        true
    } else {
        a[i] < b[i]
    }
}

fn ranks_above_exec(a: &String, b: &String, kind: ModelKind) -> (r: bool)
    ensures
        r == ranks_above(a@, b@, kind),
{
    let sa = score_candidate(a.as_str(), kind);
    let sb = score_candidate(b.as_str(), kind);
    let la = a.as_str().as_bytes().len();
    let lb = b.as_str().as_bytes().len();
    if sa != sb {
        return sa > sb;
    }
    if la != lb {
        return la < lb;
    }
    let ac = chars_of(a.as_str());
    let bc = chars_of(b.as_str());
    chars_less(&ac, &bc)
}

/// The best-ranked of the candidate paths (which are already known to exist
/// and fit the kind), or nothing when there are none.
pub fn select_best_candidate(candidates: &Vec<String>, kind: ModelKind) -> (r: Option<String>)
    ensures
        r is None <==> candidates@.len() == 0,
        r matches Some(best) ==> (exists|k: int|
            0 <= k < candidates@.len() && candidates@[k] == best) && forall|j: int|
            0 <= j < candidates@.len() ==> !ranks_above(
                (#[trigger] candidates@[j])@,
                best@,
                kind,
            ),
{
    if candidates.len() == 0 {
        return None;
    }
    let mut best: usize = 0;
    let mut i: usize = 1;
    proof {
        lemma_char_order(candidates@[0]@, candidates@[0]@, candidates@[0]@);
    }
    while i < candidates.len()
        invariant
            1 <= i <= candidates@.len(),
            best < i,
            forall|j: int|
                0 <= j < i ==> !ranks_above(
                    (#[trigger] candidates@[j])@,
                    candidates@[best as int]@,
                    kind,
                ),
        decreases candidates.len() - i,
    {
        if ranks_above_exec(&candidates[i], &candidates[best], kind) {
            proof {
                lemma_ranks_above_transitive_total(candidates@, best as int, i as int, kind);
            }
            best = i;
        }
        i = i + 1;
    }
    Some(candidates[best].clone())
}

proof fn lemma_char_order(a: Seq<char>, b: Seq<char>, c: Seq<char>)
    ensures
        char_order_less(a, b) && char_order_less(b, c) ==> char_order_less(a, c),
        !char_order_less(a, b) && !char_order_less(b, a) ==> a == b,
        !(char_order_less(a, b) && char_order_less(b, a)),
    decreases a.len(),
{
    if a.len() > 0 && b.len() > 0 && c.len() > 0 {
        lemma_char_order(a.drop_first(), b.drop_first(), c.drop_first());
    }
    if a.len() > 0 && b.len() > 0 {
        lemma_char_order(a.drop_first(), b.drop_first(), b.drop_first());
        if a[0] == b[0] && a.drop_first() == b.drop_first() {
            assert(a =~= seq![a[0]] + a.drop_first());
            assert(b =~= seq![b[0]] + b.drop_first());
        }
    }
    if a.len() == 0 && b.len() == 0 {
        assert(a =~= b);
    }
}

proof fn lemma_ranks_above_transitive_total(v: Seq<String>, best: int, i: int, kind: ModelKind)
    requires
        0 <= best < i < v.len(),
        ranks_above(v[i]@, v[best]@, kind),
        forall|j: int| 0 <= j < i ==> !ranks_above((#[trigger] v[j])@, v[best]@, kind),
    ensures
        forall|j: int| 0 <= j <= i ==> !ranks_above((#[trigger] v[j])@, v[i]@, kind),
{
    assert forall|j: int| 0 <= j <= i implies !ranks_above((#[trigger] v[j])@, v[i]@, kind) by {
        lemma_char_order(v[j]@, v[i]@, v[best]@);
        lemma_char_order(v[i]@, v[j]@, v[best]@);
        lemma_char_order(v[i]@, v[best]@, v[j]@);
        lemma_char_order(v[j]@, v[best]@, v[i]@);
    }
}

/// Wherever a longer pattern occurs, so does each of its prefixes.
proof fn lemma_contains_prefix(hay: Seq<char>, needle: Seq<char>, prefix: Seq<char>)
    requires
        contains(hay, needle),
        prefix.len() <= needle.len(),
        needle.subrange(0, prefix.len() as int) == prefix,
    ensures
        contains(hay, prefix),
{
    let at = choose|at: int| occurs_at(hay, needle, at);
    assert(hay.subrange(at, at + prefix.len()) =~= needle.subrange(0, prefix.len() as int));
    assert(occurs_at(hay, prefix, at));
}

/// A `ggml-` Whisper model named for the medium size, in a directory that is
/// neither a build, package nor downloads directory, scores 90 (10, 20 for
/// `ggml-`, 60 for the size), and ranks above a `ggml-` tiny model (70) in
/// such a directory; neither name may also name a base, small or large model.
pub proof fn law_medium_whisper_outranks_tiny(medium: Seq<char>, tiny: Seq<char>)
    requires
        starts_with(lower_file_name(medium), "ggml-"@),
        contains(lower_file_name(medium), "medium"@),
        !contains(lower_file_name(medium), "base"@),
        !contains(lower_file_name(medium), "small"@),
        !contains(lower_file_name(medium), "large"@),
        starts_with(lower_file_name(tiny), "ggml-"@),
        contains(lower_file_name(tiny), "tiny"@),
        !contains(lower_file_name(tiny), "base"@),
        !contains(lower_file_name(tiny), "small"@),
        !contains(lower_file_name(tiny), "medium"@),
        !contains(lower_file_name(tiny), "large"@),
        !contains(lower_seq(medium), "/target/"@),
        !contains(lower_seq(medium), "/node_modules/"@),
        !contains(lower_seq(medium), "/downloads/"@),
        !contains(lower_seq(tiny), "/target/"@),
        !contains(lower_seq(tiny), "/node_modules/"@),
        !contains(lower_seq(tiny), "/downloads/"@),
    ensures
        candidate_score(medium, ModelKind::Whisper) == 90,
        candidate_score(tiny, ModelKind::Whisper) == 70,
        ranks_above(medium, tiny, ModelKind::Whisper),
{
    reveal_strlit("base-q5");
    reveal_strlit("base");
    reveal_strlit("small-q5");
    reveal_strlit("small");
    let m = lower_file_name(medium);
    let t = lower_file_name(tiny);
    assert("base-q5"@.subrange(0, 4) =~= "base"@);
    assert("small-q5"@.subrange(0, 5) =~= "small"@);
    if contains(m, "base-q5"@) {
        lemma_contains_prefix(m, "base-q5"@, "base"@);
    }
    if contains(m, "small-q5"@) {
        lemma_contains_prefix(m, "small-q5"@, "small"@);
    }
    if contains(t, "base-q5"@) {
        lemma_contains_prefix(t, "base-q5"@, "base"@);
    }
    if contains(t, "small-q5"@) {
        lemma_contains_prefix(t, "small-q5"@, "small"@);
    }
}

} // verus!
