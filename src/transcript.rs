use vstd::prelude::*;

use crate::subtitle::{ticks_ms, ticks_to_millis, Cue};
use crate::text::{decimal, pad2, push_decimal, push_pad2};

verus! {

/// One segment as the engine reports it during a run: its text and its
/// bounds in ticks of ten milliseconds.
pub struct SegmentEvent {
    pub text: String,
    pub start: i64,
    pub end: i64,
}

impl View for SegmentEvent {
    type V = (Seq<char>, i64, i64);

    open spec fn view(&self) -> Self::V {
        (self.text@, self.start, self.end)
    }
}

/// The segments of one run, in the order the engine emitted them.
pub struct Transcript {
    segments: Vec<SegmentEvent>,
}

impl View for Transcript {
    type V = Seq<(Seq<char>, i64, i64)>;

    closed spec fn view(&self) -> Self::V {
        self.segments@.map_values(|s: SegmentEvent| s@)
    }
}

/// A transcript after the segments `calls` were recorded, one after the
/// other, into the transcript `start`.
pub open spec fn record_all(
    start: Seq<(Seq<char>, i64, i64)>,
    calls: Seq<(Seq<char>, i64, i64)>,
) -> Seq<(Seq<char>, i64, i64)>
    decreases calls.len(),
{
    if calls.len() == 0 {
        start
    } else {
        record_all(start, calls.drop_last()).push(calls.last())
    }
}

/// Recording keeps the order of the calls: recording `calls` one by one into
/// a transcript appends them to it, exactly in call order, never re-sorted.
pub proof fn lemma_transcript_keeps_call_order(
    start: Seq<(Seq<char>, i64, i64)>,
    calls: Seq<(Seq<char>, i64, i64)>,
)
    ensures
        record_all(start, calls) == start + calls,
    decreases calls.len(),
{
    if calls.len() > 0 {
        lemma_transcript_keeps_call_order(start, calls.drop_last());
        assert(start + calls =~= (start + calls.drop_last()).push(calls.last()));
    } else {
        assert(start + calls =~= start);
    }
}

impl Transcript {
    pub fn new() -> (r: Transcript)
        ensures
            r@ == Seq::<(Seq<char>, i64, i64)>::empty(),
    {
        Transcript { segments: Vec::new() }
    }

    pub fn len(&self) -> (r: usize)
        ensures
            r == self@.len(),
    {
        self.segments.len()
    }

    /// Appends one segment as the engine reported it.
    pub fn record(&mut self, text: String, start: i64, end: i64)
        ensures
            final(self)@ == old(self)@.push((text@, start, end)),
    {
        self.segments.push(SegmentEvent { text, start, end });
        proof {
            assert(final(self)@ =~= old(self)@.push((text@, start, end)));
        }
    }

    /// The segment at `i`.
    pub fn get(&self, i: usize) -> (r: &SegmentEvent)
        requires
            i < self@.len(),
        ensures
            r@ == self@[i as int],
    {
        &self.segments[i]
    }

    /// The subtitle cues of the transcript, in order, with times in
    /// milliseconds.
    pub fn cues(&self) -> (r: Vec<Cue>)
        ensures
            r@.len() == self@.len(),
            forall|i: int|
                0 <= i < r@.len() ==> {
                    &&& #[trigger] r@[i].text@ == self@[i].0
                    &&& r@[i].start_ms as nat == ticks_ms(self@[i].1 as int)
                    &&& r@[i].end_ms as nat == ticks_ms(self@[i].2 as int)
                },
    {
        let mut out: Vec<Cue> = Vec::new();
        let mut i: usize = 0;
        while i < self.segments.len()
            invariant
                i <= self@.len(),
                self@.len() == self.segments@.len(),
                out@.len() == i,
                forall|k: int|
                    0 <= k < i ==> {
                        &&& #[trigger] out@[k].text@ == self@[k].0
                        &&& out@[k].start_ms as nat == ticks_ms(self@[k].1 as int)
                        &&& out@[k].end_ms as nat == ticks_ms(self@[k].2 as int)
                    },
            decreases self@.len() - i,
        {
            let s = &self.segments[i];
            proof {
                assert(self@[i as int] == s@);
            }
            out.push(
                Cue {
                    text: s.text.clone(),
                    start_ms: ticks_to_millis(s.start),
                    end_ms: ticks_to_millis(s.end),
                },
            );
            i = i + 1;
        }
        out
    }
}

/// What `str::trim` leaves of a text.
pub uninterp spec fn trimmed(s: Seq<char>) -> Seq<char>;

/// Relies on `str::trim`: the text without its leading and trailing white
/// space, which depends on the text alone.
#[verifier::external_body]
fn trim_text(s: &str) -> (r: String)
    ensures
        r@ == trimmed(s@),
{
    s.trim().to_string()
}

/// One token of a finished segment, with its bounds in ticks; a bound of
/// `-1` means that the engine gave no timing.
pub struct TokenInfo {
    pub text: String,
    pub t0: i64,
    pub t1: i64,
}

/// A word with its bounds in ticks.
pub struct Word {
    pub word: String,
    pub start: i64,
    pub end: i64,
}

impl View for Word {
    type V = (Seq<char>, i64, i64);

    open spec fn view(&self) -> Self::V {
        (self.word@, self.start, self.end)
    }
}

/// A token carries usable timing when both of its bounds are non-negative.
pub open spec fn has_timing(t: TokenInfo) -> bool {
    t.t0 >= 0 && t.t1 >= 0
}

pub open spec fn word_of(t: TokenInfo) -> (Seq<char>, i64, i64) {
    (trimmed(t.text@), t.t0, t.t1)
}

/// The tokens that carry timing, in order.
pub open spec fn timed_tokens(tokens: Seq<TokenInfo>) -> Seq<TokenInfo> {
    tokens.filter(|t: TokenInfo| has_timing(t))
}

/// The words of a segment: its timed tokens, trimmed, in order.
pub open spec fn timed_words(tokens: Seq<TokenInfo>) -> Seq<(Seq<char>, i64, i64)> {
    timed_tokens(tokens).map_values(|t: TokenInfo| word_of(t))
}

/// A token becomes a word exactly when both of its bounds are non-negative:
/// one more timed token adds its word at the end, one without timing adds
/// nothing.
pub proof fn lemma_word_iff_timed(tokens: Seq<TokenInfo>, t: TokenInfo)
    ensures
        has_timing(t) ==> timed_words(tokens.push(t)) == timed_words(tokens).push(word_of(t)),
        !has_timing(t) ==> timed_words(tokens.push(t)) == timed_words(tokens),
{
    tokens.lemma_filter_push(t, |x: TokenInfo| has_timing(x));
    if has_timing(t) {
        assert(timed_tokens(tokens.push(t)) == timed_tokens(tokens).push(t));
        assert(timed_words(tokens.push(t)) =~= timed_words(tokens).push(word_of(t)));
    } else {
        assert(timed_tokens(tokens.push(t)) == timed_tokens(tokens));
    }
}

/// A finished segment: trimmed text, bounds in ticks, and its timed words.
pub struct SegmentRecord {
    pub text: String,
    pub start: i64,
    pub end: i64,
    pub words: Vec<Word>,
}

/// Completes a segment with the tokens that the engine reports for it: the
/// text is trimmed and only tokens with both bounds non-negative become
/// words, in token order.
pub fn build_segment(text: &str, start: i64, end: i64, tokens: &Vec<TokenInfo>) -> (r:
    SegmentRecord)
    ensures
        r.text@ == trimmed(text@),
        r.start == start,
        r.end == end,
        r.words@.map_values(|w: Word| w@) == timed_words(tokens@),
{
    let mut words: Vec<Word> = Vec::new();
    let mut i: usize = 0;
    while i < tokens.len()
        invariant
            i <= tokens@.len(),
            words@.map_values(|w: Word| w@) == timed_words(tokens@.subrange(0, i as int)),
        decreases tokens@.len() - i,
    {
        let t = &tokens[i];
        proof {
            assert(tokens@.subrange(0, i + 1) =~= tokens@.subrange(0, i as int).push(*t));
            lemma_word_iff_timed(tokens@.subrange(0, i as int), *t);
        }
        if t.t0 >= 0 && t.t1 >= 0 {
            let ghost before = words@;
            words.push(Word { word: trim_text(t.text.as_str()), start: t.t0, end: t.t1 });
            proof {
                assert(words@.map_values(|w: Word| w@) =~= before.map_values(|w: Word| w@).push(
                    word_of(*t),
                ));
            }
        }
        i = i + 1;
    }
    proof {
        assert(tokens@.subrange(0, i as int) =~= tokens@);
    }
    SegmentRecord { text: trim_text(text), start, end, words }
}

/// Seconds, to two decimals, for a time in ticks of ten milliseconds.
pub open spec fn seconds_text(ticks: int) -> Seq<char> {
    let a = if ticks < 0 {
        -ticks
    } else {
        ticks
    };
    (if ticks < 0 {
        seq!['-']
    } else {
        Seq::empty()
    }) + decimal((a / 100) as nat) + seq!['.'] + pad2((a % 100) as nat)
}

/// The progress line for one segment reported by the engine, with the
/// duration of the audio in hundredths of a second.
pub open spec fn progress_text(text: Seq<char>, start: int, end: int, duration: nat) -> Seq<
    char,
> {
    "Transcription: "@ + text + " start_time: "@ + seconds_text(start) + " end_time:"@
        + seconds_text(end) + " duration: "@ + seconds_text(duration as int)
}

fn push_seconds(s: &mut String, ticks: i64)
    ensures
        final(s)@ == old(s)@ + seconds_text(ticks as int),
{
    let a: u64 = if ticks < 0 {
        s.append("-");
        (0 - (ticks as i128)) as u64
    } else {
        ticks as u64
    };
    push_decimal(s, a / 100);
    s.append(".");
    push_pad2(s, a % 100);
    proof {
        reveal_strlit("-");
        reveal_strlit(".");
        assert(final(s)@ =~= old(s)@ + seconds_text(ticks as int));
    }
}

fn push_seconds_unsigned(s: &mut String, centis: u64)
    ensures
        final(s)@ == old(s)@ + seconds_text(centis as int),
{
    push_decimal(s, centis / 100);
    s.append(".");
    push_pad2(s, centis % 100);
    proof {
        reveal_strlit(".");
        assert(final(s)@ =~= old(s)@ + seconds_text(centis as int));
    }
}

/// Formats the progress line of one engine segment.
pub fn progress_message(text: &str, start: i64, end: i64, duration_centis: u64) -> (r: String)
    ensures
        r@ == progress_text(text@, start as int, end as int, duration_centis as nat),
{
    let mut s = String::from_str("Transcription: ");
    s.append(text);
    s.append(" start_time: ");
    push_seconds(&mut s, start);
    s.append(" end_time:");
    push_seconds(&mut s, end);
    s.append(" duration: ");
    push_seconds_unsigned(&mut s, duration_centis);
    proof {
        assert(s@ =~= progress_text(text@, start as int, end as int, duration_centis as nat));
    }
    s
}

} // verus!
