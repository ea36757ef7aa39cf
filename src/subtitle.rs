use vstd::prelude::*;

use crate::text::{decimal, pad2, pad3, push_decimal, push_pad2, push_pad3};

verus! {

/// One subtitle cue: its text and its bounds in milliseconds.
pub struct Cue {
    pub text: String,
    pub start_ms: u64,
    pub end_ms: u64,
}

/// `HH:MM:SS,mmm` for a time given in whole milliseconds. Hours are not
/// bounded, so they may take more than two digits.
pub open spec fn timestamp_text(ms: nat) -> Seq<char> {
    pad2(ms / 3_600_000) + seq![':'] + pad2((ms / 60_000) % 60) + seq![':'] + pad2(
        (ms / 1000) % 60,
    ) + seq![','] + pad3(ms % 1000)
}

/// The block of cue number `n`: its number, its time range, its text and a
/// blank separator line.
pub open spec fn cue_block(n: nat, c: Cue) -> Seq<char> {
    decimal(n) + seq!['\n'] + timestamp_text(c.start_ms as nat) + seq![' ', '-', '-', '>', ' ']
        + timestamp_text(c.end_ms as nat) + seq!['\n'] + c.text@ + seq!['\n', '\n']
}

/// The subtitle file for `cues`, numbered from 1 in the given order.
pub open spec fn srt_text(cues: Seq<Cue>) -> Seq<char>
    decreases cues.len(),
{
    if cues.len() == 0 {
        Seq::empty()
    } else {
        srt_text(cues.drop_last()) + cue_block(cues.len(), cues.last())
    }
}

/// Milliseconds for a time given in the engine's ticks of ten milliseconds;
/// negative times count as zero and the result saturates at `u64::MAX`.
pub open spec fn ticks_ms(ticks: int) -> nat {
    if ticks <= 0 {
        0
    } else if ticks * 10 > u64::MAX {
        u64::MAX as nat
    } else {
        (ticks * 10) as nat
    }
}

pub fn ticks_to_millis(ticks: i64) -> (r: u64)
    ensures
        r as nat == ticks_ms(ticks as int),
{
    if ticks <= 0 {
        0
    } else if ticks as u64 > u64::MAX / 10 {
        u64::MAX
    } else {
        ticks as u64 * 10
    }
}

/// Formats a time in milliseconds as `HH:MM:SS,mmm`, zero-padded.
pub fn format_timestamp(ms: u64) -> (r: String)
    ensures
        r@ == timestamp_text(ms as nat),
{
    let mut s = String::new();
    push_pad2(&mut s, ms / 3_600_000);
    s.append(":");
    push_pad2(&mut s, (ms / 60_000) % 60);
    s.append(":");
    push_pad2(&mut s, (ms / 1000) % 60);
    s.append(",");
    push_pad3(&mut s, ms % 1000);
    proof {
        reveal_strlit(":");
        reveal_strlit(",");
        assert(s@ =~= timestamp_text(ms as nat));
    }
    s
}

/// Appends the block of cue number `n` to `s`.
fn push_cue(s: &mut String, n: u64, c: &Cue)
    ensures
        final(s)@ == old(s)@ + cue_block(n as nat, *c),
{
    push_decimal(s, n);
    s.append("\n");
    let start = format_timestamp(c.start_ms);
    s.append(start.as_str());
    s.append(" --> ");
    let end = format_timestamp(c.end_ms);
    s.append(end.as_str());
    s.append("\n");
    s.append(c.text.as_str());
    s.append("\n\n");
    proof {
        reveal_strlit("\n");
        reveal_strlit(" --> ");
        reveal_strlit("\n\n");
        assert(final(s)@ =~= old(s)@ + cue_block(n as nat, *c));
    }
}

/// Builds the text of a subtitle file: one block per cue, numbered from 1,
/// in the order given.
pub fn srt_content(cues: &Vec<Cue>) -> (r: String)
    ensures
        r@ == srt_text(cues@),
{
    let mut s = String::new();
    let mut i: usize = 0;
    proof {
        assert(cues@.subrange(0, 0) =~= Seq::<Cue>::empty());
    }
    while i < cues.len()
        invariant
            i <= cues@.len(),
            s@ == srt_text(cues@.subrange(0, i as int)),
        decreases cues@.len() - i,
    {
        push_cue(&mut s, i as u64 + 1, &cues[i]);
        proof {
            let next = cues@.subrange(0, i + 1);
            assert(next.drop_last() =~= cues@.subrange(0, i as int));
        }
        i = i + 1;
    }
    proof {
        assert(cues@.subrange(0, i as int) =~= cues@);
    }
    s
}

} // verus!
