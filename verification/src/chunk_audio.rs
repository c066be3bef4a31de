//! The samples that a recognizer is given for a chunk.

use vstd::prelude::*;

use crate::chunk_plan;
use crate::chunk_plan::{Chunk, ChunkView, VAD_GAP_SAMPLES};

verus! {

/// The silence put before and after what the streaming recognizer is given, in samples.
pub const XASR_PAD: usize = 8000;

/// So many samples of silence.
pub open spec fn silent<T>(silence: T, count: int) -> Seq<T> {
    Seq::new(count as nat, |i: int| silence)
}

/// The samples of segments one after the other, with silence between them.
pub open spec fn merged_audio<T>(segments: Seq<Seq<T>>, members: Seq<usize>, silence: T) -> Seq<T>
    decreases members.len(),
{
    if members.len() == 0 {
        Seq::empty()
    } else if members.len() == 1 {
        segments[members[0] as int]
    } else {
        merged_audio(segments, members.drop_last(), silence) + silent(
            silence,
            VAD_GAP_SAMPLES as int,
        ) + segments[members.last() as int]
    }
}

/// The samples of a chunk.
pub open spec fn chunk_audio<T>(segments: Seq<Seq<T>>, c: ChunkView, silence: T) -> Seq<T> {
    match c {
        ChunkView::Merged { members, end } => merged_audio(segments, members, silence),
        ChunkView::Part { segment, from, to } => segments[segment as int].subrange(
            from as int,
            to as int,
        ),
        ChunkView::Whole { segment } => segments[segment as int],
    }
}

/// Whether a chunk is cut out of segments that there are.
pub open spec fn chunk_exists<T>(segments: Seq<Seq<T>>, c: ChunkView) -> bool {
    match c {
        ChunkView::Merged { members, end } => forall|i: int|
            0 <= i < members.len() ==> (#[trigger] members[i]) < segments.len(),
        ChunkView::Part { segment, from, to } => segment < segments.len() && from <= to
            <= segments[segment as int].len(),
        ChunkView::Whole { segment } => segment < segments.len(),
    }
}

/// The chunks of a plan exist in the segments that it was made for.
pub proof fn planned_chunks_exist<T>(segments: Seq<Seq<T>>, lens: Seq<usize>, c: ChunkView)
    requires
        segments.len() == lens.len(),
        forall|i: int| 0 <= i < lens.len() ==> (#[trigger] segments[i]).len() == lens[i],
        chunk_plan::chunk_within(lens, c),
    ensures
        chunk_exists(segments, c),
{
    match c {
        ChunkView::Part { segment, from, to } => {
            assert(segments[segment as int].len() == lens[segment as int]);
        },
        _ => {},
    }
}

/// The samples of each segment.
pub open spec fn segment_views<T>(segments: Seq<Vec<T>>) -> Seq<Seq<T>> {
    segments.map_values(|s: Vec<T>| s@)
}

fn append_range<T: Copy>(out: &mut Vec<T>, samples: &Vec<T>, from: usize, to: usize)
    requires
        from <= to <= samples@.len(),
    ensures
        final(out)@ == old(out)@ + samples@.subrange(from as int, to as int),
{
    let ghost before = out@;
    let mut i: usize = from;
    assert(before + samples@.subrange(from as int, from as int) =~= before);
    while i < to
        invariant
            from <= i <= to <= samples@.len(),
            out@ == before + samples@.subrange(from as int, i as int),
        decreases to - i,
    {
        out.push(samples[i]);
        i += 1;
        assert(out@ =~= before + samples@.subrange(from as int, i as int));
    }
}

fn append_silence<T: Copy>(out: &mut Vec<T>, silence: T, count: usize)
    ensures
        final(out)@ == old(out)@ + silent(silence, count as int),
{
    let ghost before = out@;
    let mut i: usize = 0;
    assert(before + silent(silence, 0) =~= before);
    while i < count
        invariant
            0 <= i <= count,
            out@ == before + silent(silence, i as int),
        decreases count - i,
    {
        out.push(silence);
        i += 1;
        assert(out@ =~= before + silent(silence, i as int));
    }
}

fn merge_audio<T: Copy>(segments: &Vec<Vec<T>>, members: &Vec<usize>, silence: T) -> (r: Vec<T>)
    requires
        forall|i: int| 0 <= i < members@.len() ==> (#[trigger] members@[i]) < segments@.len(),
    ensures
        r@ == merged_audio(segment_views(segments@), members@, silence),
{
    let ghost views = segment_views(segments@);
    let mut out: Vec<T> = Vec::new();
    let mut k: usize = 0;
    assert(out@ =~= merged_audio(views, members@.take(0), silence));
    while k < members.len()
        invariant
            0 <= k <= members@.len(),
            views == segment_views(segments@),
            forall|i: int| 0 <= i < members@.len() ==> (#[trigger] members@[i]) < segments@.len(),
            out@ == merged_audio(views, members@.take(k as int), silence),
        decreases members@.len() - k,
    {
        let ghost before = out@;
        if k > 0 {
            append_silence(&mut out, silence, VAD_GAP_SAMPLES);
        }
        let m: usize = members[k];
        let samples: &Vec<T> = &segments[m];
        append_range(&mut out, samples, 0, samples.len());
        k += 1;
        proof {
            let now = members@.take(k as int);
            assert(samples@.subrange(0, samples@.len() as int) =~= samples@);
            assert(views[m as int] == samples@);
            assert(now.drop_last() =~= members@.take(k - 1));
            assert(now.last() == m);
            if k == 1 {
                assert(members@.take(0).len() == 0);
                assert(before =~= Seq::empty());
                assert(out@ =~= samples@);
                assert(now[0] == m);
            } else {
                assert(out@ =~= before + silent(silence, VAD_GAP_SAMPLES as int) + samples@);
            }
        }
    }
    assert(members@.take(members@.len() as int) =~= members@);
    out
}

/// The samples of a chunk: segments that were merged stand one after the other, with silence
/// between them.
pub fn assemble<T: Copy>(segments: &Vec<Vec<T>>, chunk: &Chunk, silence: T) -> (r: Vec<T>)
    requires
        chunk_exists(segment_views(segments@), chunk@),
    ensures
        r@ == chunk_audio(segment_views(segments@), chunk@, silence),
{
    let ghost views = segment_views(segments@);
    match chunk {
        Chunk::Merged { members, end } => {
            let ghost c = ChunkView::Merged { members: members@, end: *end };
            assert(chunk_exists(views, c));
            merge_audio(segments, members, silence)
        },
        Chunk::Part { segment, from, to } => {
            let samples: &Vec<T> = &segments[*segment];
            let mut out: Vec<T> = Vec::new();
            append_range(&mut out, samples, *from, *to);
            assert(views[*segment as int] == samples@);
            assert(out@ =~= samples@.subrange(*from as int, *to as int));
            out
        },
        Chunk::Whole { segment } => {
            let samples: &Vec<T> = &segments[*segment];
            let mut out: Vec<T> = Vec::new();
            append_range(&mut out, samples, 0, samples.len());
            assert(views[*segment as int] == samples@);
            assert(out@ =~= samples@);
            out
        },
    }
}

/// Samples with silence before and after, as the streaming recognizer is given them.
pub fn padded(samples: &Vec<i16>) -> (r: Vec<i16>)
    ensures
        r@ == silent(0i16, XASR_PAD as int) + samples@ + silent(0i16, XASR_PAD as int),
        r@.len() == samples@.len() + 16000,
        forall|i: int| 0 <= i < samples@.len() ==> r@[8000 + i] == #[trigger] samples@[i],
        forall|i: int|
            0 <= i < 8000 || 8000 + samples@.len() <= i < r@.len() ==> #[trigger] r@[i] == 0,
{
    let mut out: Vec<i16> = Vec::new();
    append_silence(&mut out, 0, XASR_PAD);
    append_range(&mut out, samples, 0, samples.len());
    append_silence(&mut out, 0, XASR_PAD);
    assert(samples@.subrange(0, samples@.len() as int) =~= samples@);
    assert(out@ =~= silent(0i16, XASR_PAD as int) + samples@ + silent(0i16, XASR_PAD as int));
    out
}

proof fn merged_audio_len<T>(
    segments: Seq<Seq<T>>,
    lens: Seq<usize>,
    members: Seq<usize>,
    silence: T,
)
    requires
        segments.len() == lens.len(),
        forall|i: int| 0 <= i < lens.len() ==> (#[trigger] segments[i]).len() == lens[i],
        forall|i: int| 0 <= i < members.len() ==> (#[trigger] members[i]) < lens.len(),
    ensures
        merged_audio(segments, members, silence).len() == chunk_plan::group_len(lens, members),
    decreases members.len(),
{
    if members.len() == 1 {
        assert(segments[members[0] as int].len() == lens[members[0] as int]);
    } else if members.len() > 1 {
        let shorter = members.drop_last();
        assert forall|i: int| 0 <= i < shorter.len() implies (#[trigger] shorter[i])
            < lens.len() by {
            assert(shorter[i] == members[i]);
        }
        merged_audio_len(segments, lens, shorter, silence);
        assert(segments[members.last() as int].len() == lens[members.last() as int]);
        assert(members.last() == members[members.len() - 1]);
    }
}

/// No recognizer is given more than a chunk may hold: the samples of a chunk that stays within a
/// limit are at most so many, and those of a part are as many as its range says.
pub proof fn chunk_audio_fits<T>(
    segments: Seq<Seq<T>>,
    lens: Seq<usize>,
    c: ChunkView,
    limit: int,
    silence: T,
)
    requires
        segments.len() == lens.len(),
        forall|i: int| 0 <= i < lens.len() ==> (#[trigger] segments[i]).len() == lens[i],
        chunk_exists(segments, c),
        chunk_plan::chunk_fits(c, lens, limit),
    ensures
        match c {
            ChunkView::Part { segment, from, to } => chunk_audio(segments, c, silence).len() == to
                - from,
            _ => chunk_audio(segments, c, silence).len() <= limit,
        },
{
    match c {
        ChunkView::Merged { members, end } => {
            merged_audio_len(segments, lens, members, silence);
        },
        ChunkView::Part { segment, from, to } => {
            assert(segments[segment as int].len() == lens[segment as int]);
        },
        ChunkView::Whole { segment } => {
            assert(segments[segment as int].len() == lens[segment as int]);
        },
    }
}

/// Where the samples of a chunk's segment begin: behind those of the segments before it, with
/// fifty milliseconds between two of them.
pub open spec fn offset<T>(segments: Seq<Seq<T>>, members: Seq<usize>, k: int) -> int
    decreases k,
{
    if k <= 0 {
        0
    } else {
        offset(segments, members, k - 1) + segments[members[k - 1] as int].len() + 800
    }
}

proof fn offsets_grow<T>(segments: Seq<Seq<T>>, members: Seq<usize>, j: int, k: int)
    requires
        0 <= j < k,
    ensures
        offset(segments, members, j) + segments[members[j] as int].len() + 800 <= offset(
            segments,
            members,
            k,
        ),
        0 <= offset(segments, members, j),
    decreases k,
{
    if j > 0 {
        offsets_grow(segments, members, j - 1, j);
    }
    if j < k - 1 {
        offsets_grow(segments, members, j, k - 1);
    }
}

proof fn offsets_of_fewer<T>(segments: Seq<Seq<T>>, members: Seq<usize>, k: int)
    requires
        0 <= k < members.len(),
    ensures
        offset(segments, members.drop_last(), k) == offset(segments, members, k),
    decreases k,
{
    if k > 0 {
        offsets_of_fewer(segments, members, k - 1);
    }
}

/// The recognizer hears every segment of a merged chunk as it was recorded, in order, with silence
/// before the next one, and nothing else.
pub proof fn merged_segments_are_heard<T>(
    segments: Seq<Seq<T>>,
    members: Seq<usize>,
    end: chunk_plan::ChunkEnd,
    silence: T,
)
    requires
        members.len() > 0,
    ensures
        ({
            let audio = chunk_audio(segments, ChunkView::Merged { members, end }, silence);
            &&& audio.len() + 800 == offset(segments, members, members.len() as int)
            &&& forall|k: int, i: int|
                0 <= k < members.len() && 0 <= i < segments[members[k] as int].len() ==> audio[offset(
                    segments,
                    members,
                    k,
                ) + i] == #[trigger] segments[members[k] as int][i]
            &&& forall|k: int, i: int|
                #![trigger offset(segments, members, k), audio[i]]
                0 < k < members.len() && offset(segments, members, k) - 800 <= i < offset(
                    segments,
                    members,
                    k,
                ) ==> audio[i] == silence
        }),
    decreases members.len(),
{
    let audio = merged_audio(segments, members, silence);
    let n = members.len() as int;
    let last = segments[members.last() as int];
    if n > 1 {
        let fewer = members.drop_last();
        let before = merged_audio(segments, fewer, silence);
        merged_segments_are_heard(segments, fewer, end, silence);
        offsets_of_fewer(segments, members, n - 1);
        let start = offset(segments, members, n - 1);
        assert(before.len() + 800 == start);
        assert(audio.len() == start + last.len());
        assert forall|k: int, i: int|
            0 <= k < n && 0 <= i < segments[members[k] as int].len() implies audio[offset(
            segments,
            members,
            k,
        ) + i] == #[trigger] segments[members[k] as int][i] by {
            if k < n - 1 {
                offsets_of_fewer(segments, members, k);
                offsets_grow(segments, members, k, n - 1);
                assert(fewer[k] == members[k]);
                assert(before[offset(segments, fewer, k) + i] == segments[fewer[k] as int][i]);
            }
        }
        assert forall|k: int, i: int|
            #![trigger offset(segments, members, k), audio[i]]
            0 < k < n && offset(segments, members, k) - 800 <= i < offset(
                segments,
                members,
                k,
            ) implies audio[i] == silence by {
            offsets_grow(segments, members, k - 1, k);
            if k < n - 1 {
                offsets_of_fewer(segments, members, k);
                offsets_grow(segments, members, k, n - 1);
                assert(offset(segments, fewer, k) - 800 <= i < offset(segments, fewer, k));
                assert(before[i] == silence);
            }
        }
    } else {
        assert(audio == segments[members[0] as int]);
        assert(offset(segments, members, 1) == offset(segments, members, 0) + last.len() + 800);
    }
}

/// A part holds the samples of its range, and a whole segment all of its samples.
pub proof fn other_chunks_are_heard_as_recorded<T>(
    segments: Seq<Seq<T>>,
    segment: usize,
    from: usize,
    to: usize,
    silence: T,
)
    requires
        segment < segments.len(),
        from <= to <= segments[segment as int].len(),
    ensures
        chunk_audio(segments, ChunkView::Whole { segment }, silence) == segments[segment as int],
        chunk_audio(segments, ChunkView::Part { segment, from, to }, silence).len() == to - from,
        forall|i: int|
            0 <= i < to - from ==> #[trigger] chunk_audio(
                segments,
                ChunkView::Part { segment, from, to },
                silence,
            )[i] == segments[segment as int][from + i],
{
}

} // verus!
