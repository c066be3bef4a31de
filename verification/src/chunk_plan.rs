//! How detected speech segments are grouped into the chunks that are transcribed one by one.
//!
//! A segment is known here by its place in the list of detected segments and by its length in
//! samples. The plan says which segments, or which parts of one, make up each chunk, and at
//! which segment boundary a chunk's time span ends.

use vstd::prelude::*;

verus! {

/// Samples per second of the audio that is transcribed.
pub const SAMPLE_RATE: usize = 16000;

/// Segments shorter than this (100 ms) are detection artifacts and are dropped.
pub const MIN_SEGMENT_SAMPLES: usize = 1600;

/// Silence (50 ms) put between two segments that are merged into one chunk.
pub const VAD_GAP_SAMPLES: usize = 800;

/// The boundary at which a chunk's time span ends.
#[derive(Clone, Copy, Debug, PartialEq, Eq, Structural)]
pub enum ChunkEnd {
    /// Where the given segment starts.
    StartOf(usize),
    /// Where the given segment ends.
    EndOf(usize),
}

/// One chunk of the plan.
#[derive(Clone, Debug)]
pub enum Chunk {
    /// Several segments in order, with silence between them.
    Merged { members: Vec<usize>, end: ChunkEnd },
    /// The samples `from..to` of one segment that is longer than a chunk may be.
    Part { segment: usize, from: usize, to: usize },
    /// One segment as it is.
    Whole { segment: usize },
}

/// A chunk as a mathematical value.
pub enum ChunkView {
    Merged { members: Seq<usize>, end: ChunkEnd },
    Part { segment: usize, from: usize, to: usize },
    Whole { segment: usize },
}

impl View for Chunk {
    type V = ChunkView;

    open spec fn view(&self) -> ChunkView {
        match *self {
            Chunk::Merged { members, end } => ChunkView::Merged { members: members@, end },
            Chunk::Part { segment, from, to } => ChunkView::Part { segment, from, to },
            Chunk::Whole { segment } => ChunkView::Whole { segment },
        }
    }
}

/// The views of a list of chunks.
pub open spec fn chunk_views(chunks: Seq<Chunk>) -> Seq<ChunkView> {
    chunks.map_values(|c: Chunk| c@)
}

/// The length of a merged group: its segments and the silence between them.
pub open spec fn group_len(lens: Seq<usize>, members: Seq<usize>) -> int
    decreases members.len(),
{
    if members.len() == 0 {
        0
    } else if members.len() == 1 {
        lens[members[0] as int] as int
    } else {
        group_len(lens, members.drop_last()) + VAD_GAP_SAMPLES + lens[members.last() as int]
    }
}

/// The chunks cut out of one over-long segment.
pub open spec fn part_chunks(segment: usize, ranges: Seq<(usize, usize)>) -> Seq<ChunkView> {
    ranges.map_values(
        |r: (usize, usize)| ChunkView::Part { segment, from: r.0, to: r.1 },
    )
}

/// The chunks so far, with the open group closed at `end` where there is one.
pub open spec fn closed_at(done: Seq<ChunkView>, open: Seq<usize>, end: ChunkEnd) -> Seq<
    ChunkView,
> {
    if open.len() == 0 {
        done
    } else {
        done.push(ChunkView::Merged { members: open, end })
    }
}

/// The finished chunks and the open group after the first `n` segments, when segments are
/// merged up to `limit` samples per chunk.
pub open spec fn merging(
    lens: Seq<usize>,
    ranges: Seq<Seq<(usize, usize)>>,
    limit: int,
    n: int,
) -> (Seq<ChunkView>, Seq<usize>)
    decreases n,
{
    if n <= 0 {
        (Seq::empty(), Seq::empty())
    } else {
        let (done, open) = merging(lens, ranges, limit, n - 1);
        let i = (n - 1) as usize;
        let len = lens[n - 1] as int;
        if len < MIN_SEGMENT_SAMPLES {
            (done, open)
        } else if len > limit {
            (closed_at(done, open, ChunkEnd::StartOf(i)) + part_chunks(i, ranges[n - 1]), Seq::empty())
        } else if open.len() > 0 && group_len(lens, open) + VAD_GAP_SAMPLES + len > limit {
            (closed_at(done, open, ChunkEnd::StartOf(i)), seq![i])
        } else {
            (done, open.push(i))
        }
    }
}

/// All chunks, when segments are merged up to `limit` samples per chunk.
pub open spec fn merged_chunks(
    lens: Seq<usize>,
    ranges: Seq<Seq<(usize, usize)>>,
    limit: int,
) -> Seq<ChunkView> {
    let (done, open) = merging(lens, ranges, limit, lens.len() as int);
    closed_at(done, open, ChunkEnd::EndOf((lens.len() - 1) as usize))
}

/// The chunks of one segment when segments are kept apart.
pub open spec fn segment_chunks(
    i: usize,
    len: int,
    ranges: Seq<(usize, usize)>,
    limit: int,
) -> Seq<ChunkView> {
    if len < MIN_SEGMENT_SAMPLES {
        Seq::empty()
    } else if len > limit {
        part_chunks(i, ranges)
    } else {
        seq![ChunkView::Whole { segment: i }]
    }
}

/// All chunks of the first `n` segments when segments are kept apart.
pub open spec fn separate_chunks(
    lens: Seq<usize>,
    ranges: Seq<Seq<(usize, usize)>>,
    limit: int,
    n: int,
) -> Seq<ChunkView>
    decreases n,
{
    if n <= 0 {
        Seq::empty()
    } else {
        separate_chunks(lens, ranges, limit, n - 1) + segment_chunks(
            (n - 1) as usize,
            lens[n - 1] as int,
            ranges[n - 1],
            limit,
        )
    }
}

/// The sample ranges handed in for each segment.
pub open spec fn range_views(ranges: Seq<Vec<(usize, usize)>>) -> Seq<Seq<(usize, usize)>> {
    ranges.map_values(|r: Vec<(usize, usize)>| r@)
}

/// Appends the chunks cut out of one over-long segment.
fn push_parts(chunks: &mut Vec<Chunk>, segment: usize, ranges: &Vec<(usize, usize)>)
    ensures
        chunk_views(final(chunks)@) == chunk_views(old(chunks)@) + part_chunks(segment, ranges@),
{
    let mut i: usize = 0;
    let ghost before = chunk_views(chunks@);
    assert(chunk_views(chunks@) =~= before + part_chunks(segment, ranges@.take(0)));
    while i < ranges.len()
        invariant
            0 <= i <= ranges@.len(),
            chunk_views(chunks@) == before + part_chunks(segment, ranges@.take(i as int)),
        decreases ranges@.len() - i,
    {
        let r: (usize, usize) = ranges[i];
        let ghost last = chunks@;
        chunks.push(Chunk::Part { segment, from: r.0, to: r.1 });
        i += 1;
        assert(chunk_views(chunks@) =~= chunk_views(last).push(
            ChunkView::Part { segment, from: r.0, to: r.1 },
        ));
        assert(ranges@.take(i as int) =~= ranges@.take(i - 1).push(r));
        assert(part_chunks(segment, ranges@.take(i as int)) =~= part_chunks(
            segment,
            ranges@.take(i - 1),
        ).push(ChunkView::Part { segment, from: r.0, to: r.1 }));
    }
    assert(ranges@.take(ranges@.len() as int) =~= ranges@);
}

/// Merges consecutive segments into chunks of at most `limit` samples.
///
/// A segment longer than `limit` becomes one chunk per range in `ranges`, at its own place.
pub fn merge_segments(lens: &Vec<usize>, ranges: &Vec<Vec<(usize, usize)>>, limit: usize) -> (r: Vec<
    Chunk,
>)
    requires
        ranges@.len() == lens@.len(),
        2 * limit + VAD_GAP_SAMPLES <= usize::MAX,
    ensures
        chunk_views(r@) == merged_chunks(lens@, range_views(ranges@), limit as int),
{
    let mut chunks: Vec<Chunk> = Vec::new();
    let mut open: Vec<usize> = Vec::new();
    let mut open_len: usize = 0;
    let mut i: usize = 0;
    let ghost rv = range_views(ranges@);
    assert(chunk_views(chunks@) =~= Seq::empty());
    while i < lens.len()
        invariant
            0 <= i <= lens@.len(),
            ranges@.len() == lens@.len(),
            rv == range_views(ranges@),
            2 * limit + VAD_GAP_SAMPLES <= usize::MAX,
            (chunk_views(chunks@), open@) == merging(lens@, rv, limit as int, i as int),
            open_len == group_len(lens@, open@),
            open_len <= limit,
        decreases lens@.len() - i,
    {
        let len: usize = lens[i];
        let ghost before = chunk_views(chunks@);
        let ghost old_chunks = chunks@;
        if len < MIN_SEGMENT_SAMPLES {
        } else if len > limit {
            if open.len() > 0 {
                let ghost members = open@;
                chunks.push(Chunk::Merged { members: open, end: ChunkEnd::StartOf(i) });
                open = Vec::new();
                assert(chunk_views(chunks@) =~= closed_at(before, members, ChunkEnd::StartOf(i)));
            }
            push_parts(&mut chunks, i, &ranges[i]);
            open_len = 0;
        } else if open.len() > 0 && open_len + VAD_GAP_SAMPLES + len > limit {
            let ghost members = open@;
            chunks.push(Chunk::Merged { members: open, end: ChunkEnd::StartOf(i) });
            assert(chunk_views(chunks@) =~= closed_at(before, members, ChunkEnd::StartOf(i)));
            open = Vec::new();
            open.push(i);
            assert(open@ =~= seq![i]);
            open_len = len;
        } else {
            let ghost members = open@;
            if open.len() == 0 {
                open_len = len;
            } else {
                open_len = open_len + VAD_GAP_SAMPLES + len;
            }
            open.push(i);
            assert(open@.drop_last() =~= members);
        }
        i += 1;
    }
    let ghost before = chunk_views(chunks@);
    if open.len() > 0 {
        let ghost members = open@;
        proof {
            open_members_exist(lens@, rv, limit as int, lens@.len() as int);
        }
        chunks.push(Chunk::Merged { members: open, end: ChunkEnd::EndOf(lens.len() - 1) });
        assert(chunk_views(chunks@) =~= before.push(
            ChunkView::Merged { members, end: ChunkEnd::EndOf((lens@.len() - 1) as usize) },
        ));
    }
    chunks
}

/// Keeps segments apart: one chunk per segment, or one per range of a segment longer than
/// `limit`.
pub fn separate_segments(
    lens: &Vec<usize>,
    ranges: &Vec<Vec<(usize, usize)>>,
    limit: usize,
) -> (r: Vec<Chunk>)
    requires
        ranges@.len() == lens@.len(),
    ensures
        chunk_views(r@) == separate_chunks(
            lens@,
            range_views(ranges@),
            limit as int,
            lens@.len() as int,
        ),
{
    let mut chunks: Vec<Chunk> = Vec::new();
    let mut i: usize = 0;
    let ghost rv = range_views(ranges@);
    assert(chunk_views(chunks@) =~= Seq::empty());
    while i < lens.len()
        invariant
            0 <= i <= lens@.len(),
            ranges@.len() == lens@.len(),
            rv == range_views(ranges@),
            chunk_views(chunks@) == separate_chunks(lens@, rv, limit as int, i as int),
        decreases lens@.len() - i,
    {
        let len: usize = lens[i];
        let ghost before = chunk_views(chunks@);
        if len < MIN_SEGMENT_SAMPLES {
            assert(before + Seq::<ChunkView>::empty() =~= before);
        } else if len > limit {
            push_parts(&mut chunks, i, &ranges[i]);
        } else {
            chunks.push(Chunk::Whole { segment: i });
            assert(chunk_views(chunks@) =~= before + seq![ChunkView::Whole { segment: i }]);
        }
        i += 1;
    }
    chunks
}

/// The segments whose samples a chunk holds, in order.
pub open spec fn chunk_members(c: ChunkView) -> Seq<usize> {
    match c {
        ChunkView::Merged { members, end } => members,
        ChunkView::Part { segment, from, to } => seq![segment],
        ChunkView::Whole { segment } => seq![segment],
    }
}

/// Whether a chunk stays within `limit` samples; parts are cut to size elsewhere.
pub open spec fn chunk_fits(c: ChunkView, lens: Seq<usize>, limit: int) -> bool {
    match c {
        ChunkView::Merged { members, end } => members.len() > 0 && group_len(lens, members)
            <= limit,
        ChunkView::Part { segment, from, to } => lens[segment as int] > limit,
        ChunkView::Whole { segment } => lens[segment as int] <= limit,
    }
}

/// The segments taken up whole by the chunks, in the order of the chunks.
pub open spec fn whole_members(chunks: Seq<ChunkView>) -> Seq<usize>
    decreases chunks.len(),
{
    if chunks.len() == 0 {
        Seq::empty()
    } else {
        whole_members(chunks.drop_last()) + match chunks.last() {
            ChunkView::Part { .. } => Seq::empty(),
            c => chunk_members(c),
        }
    }
}

/// The segments among the first `n` that are long enough to keep and short enough for a chunk.
pub open spec fn fitting_segments(lens: Seq<usize>, limit: int, n: int) -> Seq<usize>
    decreases n,
{
    if n <= 0 {
        Seq::empty()
    } else {
        let rest = fitting_segments(lens, limit, n - 1);
        if MIN_SEGMENT_SAMPLES <= lens[n - 1] && lens[n - 1] <= limit {
            rest.push((n - 1) as usize)
        } else {
            rest
        }
    }
}

/// The parts cut out of over-long segments, in the order of the chunks.
pub open spec fn cut_parts(chunks: Seq<ChunkView>) -> Seq<ChunkView> {
    chunks.filter(|c: ChunkView| c is Part)
}

/// The parts that the over-long segments among the first `n` are cut into, in order.
pub open spec fn long_parts(
    lens: Seq<usize>,
    ranges: Seq<Seq<(usize, usize)>>,
    limit: int,
    n: int,
) -> Seq<ChunkView>
    decreases n,
{
    if n <= 0 {
        Seq::empty()
    } else {
        let rest = long_parts(lens, ranges, limit, n - 1);
        if MIN_SEGMENT_SAMPLES <= lens[n - 1] && lens[n - 1] > limit {
            rest + part_chunks((n - 1) as usize, ranges[n - 1])
        } else {
            rest
        }
    }
}

proof fn open_members_exist(
    lens: Seq<usize>,
    ranges: Seq<Seq<(usize, usize)>>,
    limit: int,
    n: int,
)
    requires
        0 <= n <= lens.len(),
    ensures
        merging(lens, ranges, limit, n).1.len() > 0 ==> n > 0,
{
}

proof fn whole_members_push(chunks: Seq<ChunkView>, c: ChunkView)
    ensures
        whole_members(chunks.push(c)) == whole_members(chunks) + match c {
            ChunkView::Part { .. } => Seq::empty(),
            d => chunk_members(d),
        },
{
    assert(chunks.push(c).drop_last() =~= chunks);
}

proof fn whole_members_parts(chunks: Seq<ChunkView>, segment: usize, ranges: Seq<(usize, usize)>)
    ensures
        whole_members(chunks + part_chunks(segment, ranges)) == whole_members(chunks),
        cut_parts(chunks + part_chunks(segment, ranges)) == cut_parts(chunks) + part_chunks(
            segment,
            ranges,
        ),
    decreases ranges.len(),
{
    let parts = part_chunks(segment, ranges);
    let is_part = |c: ChunkView| c is Part;
    if ranges.len() == 0 {
        assert(chunks + parts =~= chunks);
        assert(cut_parts(chunks) + parts =~= cut_parts(chunks));
    } else {
        let front = ranges.drop_last();
        whole_members_parts(chunks, segment, front);
        assert(part_chunks(segment, front) =~= parts.drop_last());
        assert((chunks + parts).drop_last() =~= chunks + part_chunks(segment, front));
        assert((chunks + parts).last() is Part);
        reveal(Seq::filter);
        assert(whole_members(chunks + parts) =~= whole_members(
            chunks + part_chunks(segment, front),
        ));
        assert(cut_parts(chunks + parts) =~= (cut_parts(chunks) + part_chunks(segment, front)).push(
            parts.last(),
        ));
        assert((cut_parts(chunks) + part_chunks(segment, front)).push(parts.last()) =~= cut_parts(
            chunks,
        ) + parts);
    }
}

proof fn closing_keeps_parts(done: Seq<ChunkView>, open: Seq<usize>, end: ChunkEnd)
    ensures
        cut_parts(closed_at(done, open, end)) == cut_parts(done),
        whole_members(closed_at(done, open, end)) == whole_members(done) + open,
{
    reveal(Seq::filter);
    if open.len() > 0 {
        let c = ChunkView::Merged { members: open, end };
        whole_members_push(done, c);
        assert(done.push(c).drop_last() =~= done);
    } else {
        assert(whole_members(done) + open =~= whole_members(done));
    }
}

proof fn merging_invariant(
    lens: Seq<usize>,
    ranges: Seq<Seq<(usize, usize)>>,
    limit: int,
    n: int,
)
    requires
        0 <= n <= lens.len() <= usize::MAX,
        ranges.len() == lens.len(),
        0 <= limit,
    ensures
        ({
            let (done, open) = merging(lens, ranges, limit, n);
            &&& whole_members(done) + open == fitting_segments(lens, limit, n)
            &&& cut_parts(done) == long_parts(lens, ranges, limit, n)
            &&& group_len(lens, open) <= limit
            &&& forall|k: int| 0 <= k < done.len() ==> chunk_fits(#[trigger] done[k], lens, limit)
        }),
    decreases n,
{
    reveal(Seq::filter);
    if n <= 0 {
        assert(whole_members(Seq::empty()) + Seq::<usize>::empty() =~= Seq::<usize>::empty());
    } else {
        merging_invariant(lens, ranges, limit, n - 1);
        let (done, open) = merging(lens, ranges, limit, n - 1);
        let i = (n - 1) as usize;
        let len = lens[n - 1] as int;
        if len < MIN_SEGMENT_SAMPLES {
        } else if len > limit {
            let closed = closed_at(done, open, ChunkEnd::StartOf(i));
            closing_keeps_parts(done, open, ChunkEnd::StartOf(i));
            whole_members_parts(closed, i, ranges[n - 1]);
            assert(whole_members(closed) + Seq::<usize>::empty() =~= whole_members(closed));
            let next = closed + part_chunks(i, ranges[n - 1]);
            assert forall|k: int| 0 <= k < next.len() implies chunk_fits(
                #[trigger] next[k],
                lens,
                limit,
            ) by {
                if k < done.len() {
                    assert(next[k] == done[k]);
                }
            }
        } else if open.len() > 0 && group_len(lens, open) + VAD_GAP_SAMPLES + len > limit {
            let closed = closed_at(done, open, ChunkEnd::StartOf(i));
            closing_keeps_parts(done, open, ChunkEnd::StartOf(i));
            assert(whole_members(closed) + seq![i] =~= (whole_members(done) + open).push(i));
            assert forall|k: int| 0 <= k < closed.len() implies chunk_fits(
                #[trigger] closed[k],
                lens,
                limit,
            ) by {
                if k < done.len() {
                    assert(closed[k] == done[k]);
                }
            }
        } else {
            assert(whole_members(done) + open.push(i) =~= (whole_members(done) + open).push(i));
            assert(open.push(i).drop_last() =~= open);
        }
    }
}

/// Merging loses no speech and repeats none: the segments that fit a chunk are taken up whole,
/// each once and in order; the parts are exactly the ranges of the over-long segments, in order;
/// and no merged chunk is longer than the limit.
pub proof fn merging_keeps_every_segment(
    lens: Seq<usize>,
    ranges: Seq<Seq<(usize, usize)>>,
    limit: int,
)
    requires
        lens.len() <= usize::MAX,
        ranges.len() == lens.len(),
        0 <= limit,
    ensures
        whole_members(merged_chunks(lens, ranges, limit)) == fitting_segments(
            lens,
            limit,
            lens.len() as int,
        ),
        cut_parts(merged_chunks(lens, ranges, limit)) == long_parts(
            lens,
            ranges,
            limit,
            lens.len() as int,
        ),
        forall|k: int|
            0 <= k < merged_chunks(lens, ranges, limit).len() ==> chunk_fits(
                #[trigger] merged_chunks(lens, ranges, limit)[k],
                lens,
                limit,
            ),
{
    let n = lens.len() as int;
    merging_invariant(lens, ranges, limit, n);
    let (done, open) = merging(lens, ranges, limit, n);
    let end = ChunkEnd::EndOf((n - 1) as usize);
    closing_keeps_parts(done, open, end);
    let all = merged_chunks(lens, ranges, limit);
    assert forall|k: int| 0 <= k < all.len() implies chunk_fits(#[trigger] all[k], lens, limit) by {
        if k < done.len() {
            assert(all[k] == done[k]);
        }
    }
}

/// Keeping segments apart loses no speech either: the segments that fit a chunk come out whole,
/// each once and in order, and the parts are exactly the ranges of the over-long segments.
pub proof fn separating_keeps_every_segment(
    lens: Seq<usize>,
    ranges: Seq<Seq<(usize, usize)>>,
    limit: int,
    n: int,
)
    requires
        0 <= n <= lens.len() <= usize::MAX,
        ranges.len() == lens.len(),
        0 <= limit,
    ensures
        whole_members(separate_chunks(lens, ranges, limit, n)) == fitting_segments(lens, limit, n),
        cut_parts(separate_chunks(lens, ranges, limit, n)) == long_parts(lens, ranges, limit, n),
    decreases n,
{
    reveal(Seq::filter);
    if n > 0 {
        separating_keeps_every_segment(lens, ranges, limit, n - 1);
        let rest = separate_chunks(lens, ranges, limit, n - 1);
        let i = (n - 1) as usize;
        let len = lens[n - 1] as int;
        if len < MIN_SEGMENT_SAMPLES {
            assert(rest + Seq::<ChunkView>::empty() =~= rest);
        } else if len > limit {
            whole_members_parts(rest, i, ranges[n - 1]);
        } else {
            let c = ChunkView::Whole { segment: i };
            whole_members_push(rest, c);
            assert(rest + seq![c] =~= rest.push(c));
            assert(rest.push(c).drop_last() =~= rest);
            assert(whole_members(rest) + seq![i] =~= whole_members(rest).push(i));
        }
    }
}

/// Whether the ranges that segments are cut into lie within them.
pub open spec fn ranges_valid(lens: Seq<usize>, ranges: Seq<Seq<(usize, usize)>>) -> bool {
    &&& ranges.len() == lens.len()
    &&& forall|i: int, k: int|
        0 <= i < lens.len() && 0 <= k < ranges[i].len() ==> (#[trigger] ranges[i][k]).0
            <= ranges[i][k].1 <= lens[i]
}

/// Whether all of these are segments that there are.
pub open spec fn members_within(lens: Seq<usize>, members: Seq<usize>) -> bool {
    forall|i: int| 0 <= i < members.len() ==> (#[trigger] members[i]) < lens.len()
}

/// Whether a chunk is cut out of segments of these lengths.
pub open spec fn chunk_within(lens: Seq<usize>, c: ChunkView) -> bool {
    match c {
        ChunkView::Merged { members, end } => members_within(lens, members),
        ChunkView::Part { segment, from, to } => segment < lens.len() && from <= to
            <= lens[segment as int],
        ChunkView::Whole { segment } => segment < lens.len(),
    }
}

/// Whether all chunks of a list are cut out of segments of these lengths.
pub open spec fn chunks_within(lens: Seq<usize>, chunks: Seq<ChunkView>) -> bool {
    forall|k: int| 0 <= k < chunks.len() ==> chunk_within(lens, #[trigger] chunks[k])
}

proof fn parts_within(
    lens: Seq<usize>,
    ranges: Seq<Seq<(usize, usize)>>,
    done: Seq<ChunkView>,
    i: int,
)
    requires
        0 <= i < lens.len() <= usize::MAX,
        ranges_valid(lens, ranges),
        chunks_within(lens, done),
    ensures
        chunks_within(lens, done + part_chunks(i as usize, ranges[i])),
{
    let parts = part_chunks(i as usize, ranges[i]);
    let all = done + parts;
    assert forall|k: int| 0 <= k < all.len() implies chunk_within(lens, #[trigger] all[k]) by {
        if k >= done.len() {
            let r = ranges[i][k - done.len()];
            assert(all[k] == (ChunkView::Part { segment: i as usize, from: r.0, to: r.1 }));
        }
    }
}

proof fn merging_within(
    lens: Seq<usize>,
    ranges: Seq<Seq<(usize, usize)>>,
    limit: int,
    n: int,
)
    requires
        0 <= n <= lens.len() <= usize::MAX,
        ranges_valid(lens, ranges),
    ensures
        chunks_within(lens, merging(lens, ranges, limit, n).0),
        members_within(lens, merging(lens, ranges, limit, n).1),
    decreases n,
{
    if n > 0 {
        merging_within(lens, ranges, limit, n - 1);
        let (done, open) = merging(lens, ranges, limit, n - 1);
        let i = (n - 1) as usize;
        let closed = closed_at(done, open, ChunkEnd::StartOf(i));
        assert(chunks_within(lens, closed));
        if lens[n - 1] > limit {
            parts_within(lens, ranges, closed, n - 1);
        }
    }
}

/// Whatever speech is detected, the chunks that it is transcribed in are cut out of it: they name
/// segments that there are, and ranges that lie within them.
pub proof fn chunks_lie_in_the_segments(
    lens: Seq<usize>,
    ranges: Seq<Seq<(usize, usize)>>,
    limit: int,
)
    requires
        lens.len() <= usize::MAX,
        ranges_valid(lens, ranges),
    ensures
        chunks_within(lens, merged_chunks(lens, ranges, limit)),
        chunks_within(lens, separate_chunks(lens, ranges, limit, lens.len() as int)),
{
    let n = lens.len() as int;
    merging_within(lens, ranges, limit, n);
    separating_within(lens, ranges, limit, n);
}

proof fn separating_within(
    lens: Seq<usize>,
    ranges: Seq<Seq<(usize, usize)>>,
    limit: int,
    n: int,
)
    requires
        0 <= n <= lens.len() <= usize::MAX,
        ranges_valid(lens, ranges),
    ensures
        chunks_within(lens, separate_chunks(lens, ranges, limit, n)),
    decreases n,
{
    if n > 0 {
        separating_within(lens, ranges, limit, n - 1);
        let rest = separate_chunks(lens, ranges, limit, n - 1);
        if lens[n - 1] > limit {
            parts_within(lens, ranges, rest, n - 1);
        }
    }
}

/// Merging is greedy: a chunk is closed before a segment that fits a chunk only where that
/// segment would have pushed it over the limit.
pub proof fn merging_closes_only_full_chunks(
    lens: Seq<usize>,
    ranges: Seq<Seq<(usize, usize)>>,
    limit: int,
    n: int,
)
    requires
        0 < n <= lens.len() <= usize::MAX,
        ranges.len() == lens.len(),
        MIN_SEGMENT_SAMPLES <= lens[n - 1] <= limit,
    ensures
        ({
            let (done, open) = merging(lens, ranges, limit, n - 1);
            let (next_done, next_open) = merging(lens, ranges, limit, n);
            if open.len() > 0 && group_len(lens, open.push((n - 1) as usize)) > limit {
                next_done == done.push(
                    ChunkView::Merged { members: open, end: ChunkEnd::StartOf((n - 1) as usize) },
                ) && next_open == seq![(n - 1) as usize]
            } else {
                next_done == done && next_open == open.push((n - 1) as usize)
            }
        }),
{
    let (done, open) = merging(lens, ranges, limit, n - 1);
    assert(open.push((n - 1) as usize).drop_last() =~= open);
}

/// The samples of segments, all together.
pub open spec fn sum_lens(lens: Seq<usize>, members: Seq<usize>) -> int
    decreases members.len(),
{
    if members.len() == 0 {
        0
    } else {
        sum_lens(lens, members.drop_last()) + lens[members.last() as int]
    }
}

proof fn groups_are_sums(lens: Seq<usize>, members: Seq<usize>)
    requires
        members.len() > 0,
    ensures
        group_len(lens, members) == sum_lens(lens, members) + 800 * (members.len() - 1),
    decreases members.len(),
{
    if members.len() == 1 {
        assert(sum_lens(lens, members.drop_last()) == 0);
        assert(members.last() == members[0]);
    } else {
        groups_are_sums(lens, members.drop_last());
    }
}

/// The parts that chunks hold of a segment, in the order of the chunks.
pub open spec fn parts_of(chunks: Seq<ChunkView>, segment: usize) -> Seq<ChunkView> {
    chunks.filter(
        |c: ChunkView|
            match c {
                ChunkView::Part { segment: s, .. } => s == segment,
                _ => false,
            },
    )
}

proof fn parts_of_joined(a: Seq<ChunkView>, b: Seq<ChunkView>, segment: usize)
    ensures
        parts_of(a + b, segment) == parts_of(a, segment) + parts_of(b, segment),
    decreases b.len(),
{
    reveal(Seq::filter);
    if b.len() == 0 {
        assert(a + b =~= a);
        assert(parts_of(a, segment) + parts_of(b, segment) =~= parts_of(a, segment));
    } else {
        parts_of_joined(a, b.drop_last(), segment);
        assert((a + b).drop_last() =~= a + b.drop_last());
        assert(parts_of(a + b, segment) =~= parts_of(a, segment) + parts_of(b, segment));
    }
}

proof fn parts_of_parts(cut: usize, ranges: Seq<(usize, usize)>, segment: usize)
    ensures
        parts_of(part_chunks(cut, ranges), segment) == (if cut == segment {
            part_chunks(cut, ranges)
        } else {
            Seq::empty()
        }),
    decreases ranges.len(),
{
    reveal(Seq::filter);
    let parts = part_chunks(cut, ranges);
    if ranges.len() > 0 {
        parts_of_parts(cut, ranges.drop_last(), segment);
        assert(parts.drop_last() =~= part_chunks(cut, ranges.drop_last()));
        if cut == segment {
            assert(parts_of(parts, segment) =~= parts);
        }
    } else {
        assert(parts =~= Seq::empty());
    }
}

proof fn parts_of_closed(done: Seq<ChunkView>, open: Seq<usize>, end: ChunkEnd, segment: usize)
    ensures
        parts_of(closed_at(done, open, end), segment) == parts_of(done, segment),
{
    reveal(Seq::filter);
    if open.len() > 0 {
        let c = ChunkView::Merged { members: open, end };
        assert(done.push(c).drop_last() =~= done);
    }
}

proof fn merging_cuts(
    lens: Seq<usize>,
    ranges: Seq<Seq<(usize, usize)>>,
    limit: int,
    n: int,
    segment: usize,
)
    requires
        0 <= n <= lens.len() <= usize::MAX,
        ranges.len() == lens.len(),
        limit >= 1600,
        segment < lens.len(),
    ensures
        parts_of(merging(lens, ranges, limit, n).0, segment) == (if segment < n && lens[segment as int]
            > limit {
            part_chunks(segment, ranges[segment as int])
        } else {
            Seq::empty()
        }),
    decreases n,
{
    reveal(Seq::filter);
    if n > 0 {
        merging_cuts(lens, ranges, limit, n - 1, segment);
        let (done, open) = merging(lens, ranges, limit, n - 1);
        let i = (n - 1) as usize;
        let closed = closed_at(done, open, ChunkEnd::StartOf(i));
        parts_of_closed(done, open, ChunkEnd::StartOf(i), segment);
        if lens[n - 1] > limit {
            parts_of_joined(closed, part_chunks(i, ranges[n - 1]), segment);
            parts_of_parts(i, ranges[n - 1], segment);
            assert(parts_of(closed, segment) + Seq::<ChunkView>::empty() =~= parts_of(
                closed,
                segment,
            ));
            assert(Seq::<ChunkView>::empty() + part_chunks(i, ranges[n - 1]) =~= part_chunks(
                i,
                ranges[n - 1],
            ));
        }
    }
}

proof fn separating_cuts(
    lens: Seq<usize>,
    ranges: Seq<Seq<(usize, usize)>>,
    limit: int,
    n: int,
    segment: usize,
)
    requires
        0 <= n <= lens.len() <= usize::MAX,
        ranges.len() == lens.len(),
        limit >= 1600,
        segment < lens.len(),
    ensures
        parts_of(separate_chunks(lens, ranges, limit, n), segment) == (if segment < n
            && lens[segment as int] > limit {
            part_chunks(segment, ranges[segment as int])
        } else {
            Seq::empty()
        }),
    decreases n,
{
    reveal(Seq::filter);
    if n > 0 {
        separating_cuts(lens, ranges, limit, n - 1, segment);
        let rest = separate_chunks(lens, ranges, limit, n - 1);
        let i = (n - 1) as usize;
        let more = segment_chunks(i, lens[n - 1] as int, ranges[n - 1], limit);
        parts_of_joined(rest, more, segment);
        if lens[n - 1] > limit {
            parts_of_parts(i, ranges[n - 1], segment);
        } else if lens[n - 1] >= 1600 {
            assert(parts_of(more.drop_last(), segment) =~= Seq::empty());
            assert(parts_of(more, segment) == parts_of(more.drop_last(), segment));
        }
        assert(parts_of(rest, segment) + Seq::<ChunkView>::empty() =~= parts_of(rest, segment));
        assert(Seq::<ChunkView>::empty() + part_chunks(i, ranges[n - 1]) =~= part_chunks(
            i,
            ranges[n - 1],
        ));
    }
}

proof fn fitting_segments_fit(lens: Seq<usize>, limit: int, n: int)
    requires
        0 <= n <= lens.len() <= usize::MAX,
    ensures
        forall|i: int|
            0 <= i < lens.len() ==> (#[trigger] fitting_segments(lens, limit, n).contains(
                i as usize,
            ) <==> i < n && 1600 <= lens[i] <= limit),
        forall|a: int| #![trigger fitting_segments(lens, limit, n)[a]]
            0 <= a < fitting_segments(lens, limit, n).len() ==> fitting_segments(
                lens,
                limit,
                n,
            )[a] < n,
        forall|a: int, b: int|
            0 <= a < b < fitting_segments(lens, limit, n).len() ==> #[trigger] fitting_segments(
                lens,
                limit,
                n,
            )[a] < #[trigger] fitting_segments(lens, limit, n)[b],
    decreases n,
{
    if n > 0 {
        fitting_segments_fit(lens, limit, n - 1);
        let rest = fitting_segments(lens, limit, n - 1);
        let all = fitting_segments(lens, limit, n);
        assert forall|i: int| 0 <= i < lens.len() implies (#[trigger] all.contains(i as usize) <==> i
            < n && 1600 <= lens[i] <= limit) by {
            if 1600 <= lens[n - 1] <= limit {
                assert(all == rest.push((n - 1) as usize));
                if rest.contains(i as usize) {
                    let k = choose|k: int| 0 <= k < rest.len() && rest[k] == i as usize;
                    assert(all[k] == i as usize);
                }
                if i == n - 1 {
                    assert(all[all.len() - 1] == i as usize);
                }
                if all.contains(i as usize) && i != n - 1 {
                    let k = choose|k: int| 0 <= k < all.len() && all[k] == i as usize;
                    assert(rest[k] == i as usize);
                }
            } else {
                assert(rest.contains(i as usize) <==> i < n - 1 && 1600 <= lens[i] <= limit);
            }
        }
    }
}

/// Whether the segments from one to another, the last not counted, are too short to be kept.
pub open spec fn all_short(lens: Seq<usize>, from: int, to: int) -> bool {
    forall|m: int| from <= m < to ==> (#[trigger] lens[m]) < 1600
}

/// The first segment of a chunk.
pub open spec fn first_segment(c: ChunkView) -> int {
    match c {
        ChunkView::Merged { members, .. } => members[0] as int,
        ChunkView::Part { segment, .. } => segment as int,
        ChunkView::Whole { segment } => segment as int,
    }
}

/// The last segment of a chunk.
pub open spec fn last_segment(c: ChunkView) -> int {
    match c {
        ChunkView::Merged { members, .. } => members.last() as int,
        ChunkView::Part { segment, .. } => segment as int,
        ChunkView::Whole { segment } => segment as int,
    }
}

/// Whether chunks come in the order of their segments.
pub open spec fn in_order(chunks: Seq<ChunkView>) -> bool {
    forall|a: int, b: int|
        0 <= a < b < chunks.len() ==> last_segment(#[trigger] chunks[a]) <= first_segment(
            #[trigger] chunks[b],
        )
}

/// Whether a chunk that was closed before its time ends where the next thing begins, and could
/// not have taken that up.
pub open spec fn closed_in_time(
    lens: Seq<usize>,
    limit: int,
    chunks: Seq<ChunkView>,
    k: int,
    open: Seq<usize>,
) -> bool {
    chunks[k] matches ChunkView::Merged { members, end: ChunkEnd::StartOf(i) } ==> {
        &&& members.last() < i < lens.len()
        &&& all_short(lens, members.last() + 1, i as int)
        &&& lens[i as int] > limit || {
            &&& lens[i as int] >= 1600
            &&& sum_lens(lens, members) + 800 * members.len() + lens[i as int] > limit
            &&& if k + 1 < chunks.len() {
                chunks[k + 1] is Merged && first_segment(chunks[k + 1]) == i
            } else {
                open.len() > 0 && open[0] == i
            }
        }
    }
}

proof fn merging_in_time(
    lens: Seq<usize>,
    ranges: Seq<Seq<(usize, usize)>>,
    limit: int,
    n: int,
)
    requires
        0 <= n <= lens.len() <= usize::MAX,
        ranges.len() == lens.len(),
        limit >= 1600,
    ensures
        ({
            let (done, open) = merging(lens, ranges, limit, n);
            &&& forall|k: int|
                0 <= k < done.len() ==> closed_in_time(lens, limit, done, k, open)
                    && !(#[trigger] done[k] is Whole) && last_segment(done[k]) < n
            &&& forall|k: int|
                0 <= k < done.len() ==> ((#[trigger] done[k]) matches ChunkView::Merged {
                    members,
                    end,
                } ==> members.len() > 0 && end is StartOf)
            &&& in_order(done)
            &&& open.len() > 0 ==> {
                &&& open.last() < n
                &&& open[0] <= open.last()
                &&& all_short(lens, open.last() + 1, n)
                &&& forall|k: int|
                    0 <= k < done.len() ==> last_segment(#[trigger] done[k]) < open[0]
            }
        }),
    decreases n,
{
    if n > 0 {
        merging_in_time(lens, ranges, limit, n - 1);
        let (done, open) = merging(lens, ranges, limit, n - 1);
        let (next, next_open) = merging(lens, ranges, limit, n);
        let i = (n - 1) as usize;
        if open.len() > 0 {
            groups_are_sums(lens, open);
        }
        if lens[n - 1] >= 1600 {
            let closed = closed_at(done, open, ChunkEnd::StartOf(i));
            assert forall|k: int| 0 <= k < next.len() implies closed_in_time(
                lens,
                limit,
                next,
                k,
                next_open,
            ) && !(#[trigger] next[k] is Whole) && last_segment(next[k]) < n by {
                if k < done.len() {
                    assert(next[k] == done[k]);
                    assert(closed_in_time(lens, limit, done, k, open));
                    if k + 1 < done.len() {
                        assert(next[k + 1] == done[k + 1]);
                    }
                }
            }
            assert forall|a: int, b: int| 0 <= a < b < next.len() implies last_segment(
                #[trigger] next[a],
            ) <= first_segment(#[trigger] next[b]) by {
                if a < done.len() {
                    assert(next[a] == done[a]);
                }
                if b < done.len() {
                    assert(next[b] == done[b]);
                }
            }
            assert forall|k: int| 0 <= k < next.len() implies ((
            #[trigger] next[k]) matches ChunkView::Merged { members, end } ==> members.len() > 0
                && end is StartOf) by {
                if k < done.len() {
                    assert(next[k] == done[k]);
                }
            }
            if next_open.len() > 0 {
                assert forall|k: int| 0 <= k < next.len() implies last_segment(
                    #[trigger] next[k],
                ) < next_open[0] by {
                    if k < done.len() {
                        assert(next[k] == done[k]);
                    }
                }
            }
        } else {
            assert forall|k: int| 0 <= k < next.len() implies closed_in_time(
                lens,
                limit,
                next,
                k,
                next_open,
            ) && !(#[trigger] next[k] is Whole) && last_segment(next[k]) < n by {
                assert(closed_in_time(lens, limit, done, k, open));
            }
        }
    }
}

/// A merged chunk ends where the next kept segment begins, and only where that one does not fit
/// any more or is too long to be merged; the last one ends with the last segment. Chunks come in
/// the order of their segments.
pub proof fn merged_chunks_end_in_time(
    lens: Seq<usize>,
    ranges: Seq<Seq<(usize, usize)>>,
    limit: int,
)
    requires
        lens.len() <= usize::MAX,
        ranges.len() == lens.len(),
        limit >= 1600,
    ensures
        ({
            let all = merged_chunks(lens, ranges, limit);
            &&& in_order(all)
            &&& forall|k: int|
                0 <= k < all.len() ==> {
                    &&& !(#[trigger] all[k] is Whole)
                    &&& closed_in_time(lens, limit, all, k, Seq::empty())
                    &&& all[k] matches ChunkView::Merged { members, end: ChunkEnd::EndOf(i) } ==> {
                        &&& i == lens.len() - 1
                        &&& k == all.len() - 1
                        &&& all_short(lens, members.last() + 1, lens.len() as int)
                    }
                }
        }),
{
    let n = lens.len() as int;
    merging_in_time(lens, ranges, limit, n);
    let (done, open) = merging(lens, ranges, limit, n);
    let all = merged_chunks(lens, ranges, limit);
    assert forall|k: int| 0 <= k < all.len() implies {
        &&& !(#[trigger] all[k] is Whole)
        &&& closed_in_time(lens, limit, all, k, Seq::empty())
        &&& all[k] matches ChunkView::Merged { members, end: ChunkEnd::EndOf(i) } ==> {
            &&& i == lens.len() - 1
            &&& k == all.len() - 1
            &&& all_short(lens, members.last() + 1, lens.len() as int)
        }
    } by {
        if k < done.len() {
            assert(all[k] == done[k]);
            assert(closed_in_time(lens, limit, done, k, open));
            if k + 1 < done.len() {
                assert(all[k + 1] == done[k + 1]);
            }
        }
    }
    assert forall|a: int, b: int| 0 <= a < b < all.len() implies last_segment(#[trigger] all[a])
        <= first_segment(#[trigger] all[b]) by {
        assert(all[a] == done[a]);
        if b < done.len() {
            assert(all[b] == done[b]);
        }
    }
}

proof fn separating_in_order(
    lens: Seq<usize>,
    ranges: Seq<Seq<(usize, usize)>>,
    limit: int,
    n: int,
)
    requires
        0 <= n <= lens.len() <= usize::MAX,
        ranges.len() == lens.len(),
    ensures
        in_order(separate_chunks(lens, ranges, limit, n)),
        forall|k: int|
            0 <= k < separate_chunks(lens, ranges, limit, n).len() ==> !(
            #[trigger] separate_chunks(lens, ranges, limit, n)[k] is Merged) && last_segment(
                separate_chunks(lens, ranges, limit, n)[k],
            ) < n,
    decreases n,
{
    if n > 0 {
        separating_in_order(lens, ranges, limit, n - 1);
        let rest = separate_chunks(lens, ranges, limit, n - 1);
        let all = separate_chunks(lens, ranges, limit, n);
        assert forall|k: int| 0 <= k < all.len() implies !(#[trigger] all[k] is Merged)
            && last_segment(all[k]) < n by {
            if k < rest.len() {
                assert(all[k] == rest[k]);
            }
        }
        assert forall|a: int, b: int| 0 <= a < b < all.len() implies last_segment(
            #[trigger] all[a],
        ) <= first_segment(#[trigger] all[b]) by {
            if a < rest.len() {
                assert(all[a] == rest[a]);
            }
            if b < rest.len() {
                assert(all[b] == rest[b]);
            }
        }
    }
}

/// What a plan must be for given segments: every segment between a tenth of a second and the
/// longest chunk is a whole member of exactly one chunk, in order; every longer one is cut by its
/// ranges, in order; shorter ones are dropped; and merged chunks, with a twentieth of a second
/// between their segments, stay within the longest chunk.
pub open spec fn is_plan(
    plan: Seq<ChunkView>,
    lens: Seq<usize>,
    ranges: Seq<Seq<(usize, usize)>>,
    limit: int,
) -> bool {
    let whole = whole_members(plan);
    &&& forall|i: int|
        0 <= i < lens.len() ==> (#[trigger] whole.contains(i as usize) <==> 1600 <= lens[i]
            <= limit)
    &&& forall|a: int, b: int| 0 <= a < b < whole.len() ==> #[trigger] whole[a] < #[trigger] whole[b]
    &&& forall|a: int| 0 <= a < whole.len() ==> #[trigger] whole[a] < lens.len()
    &&& forall|i: int|
        0 <= i < lens.len() ==> #[trigger] parts_of(plan, i as usize) == (if lens[i] > limit {
            Seq::new(
                ranges[i].len(),
                |r: int|
                    ChunkView::Part { segment: i as usize, from: ranges[i][r].0, to: ranges[i][r].1 },
            )
        } else {
            Seq::empty()
        })
    &&& forall|k: int|
        0 <= k < plan.len() ==> ((#[trigger] plan[k]) matches ChunkView::Merged { members, .. }
            ==> members.len() > 0 && sum_lens(lens, members) + 800 * (members.len() - 1) <= limit)
    &&& in_order(plan)
}

/// Merging makes a plan.
pub proof fn merging_makes_a_plan(
    lens: Seq<usize>,
    ranges: Seq<Seq<(usize, usize)>>,
    limit: int,
)
    requires
        lens.len() <= usize::MAX,
        ranges.len() == lens.len(),
        limit >= 1600,
    ensures
        is_plan(merged_chunks(lens, ranges, limit), lens, ranges, limit),
{
    let n = lens.len() as int;
    let plan = merged_chunks(lens, ranges, limit);
    merging_keeps_every_segment(lens, ranges, limit);
    fitting_segments_fit(lens, limit, n);
    merged_chunks_end_in_time(lens, ranges, limit);
    let (done, open) = merging(lens, ranges, limit, n);
    assert forall|i: int| 0 <= i < lens.len() implies #[trigger] parts_of(plan, i as usize) == (
    if lens[i] > limit {
        Seq::new(
            ranges[i].len(),
            |r: int|
                ChunkView::Part { segment: i as usize, from: ranges[i][r].0, to: ranges[i][r].1 },
        )
    } else {
        Seq::empty()
    }) by {
        merging_cuts(lens, ranges, limit, n, i as usize);
        parts_of_closed(done, open, ChunkEnd::EndOf((n - 1) as usize), i as usize);
        if lens[i] > limit {
            assert(part_chunks(i as usize, ranges[i]) =~= Seq::new(
                ranges[i].len(),
                |r: int|
                    ChunkView::Part { segment: i as usize, from: ranges[i][r].0, to: ranges[i][r].1 },
            ));
        }
    }
    assert forall|k: int| 0 <= k < plan.len() implies ((#[trigger] plan[k]) matches ChunkView::Merged {
        members,
        ..
    } ==> members.len() > 0 && sum_lens(lens, members) + 800 * (members.len() - 1) <= limit) by {
        assert(chunk_fits(plan[k], lens, limit));
        if let ChunkView::Merged { members, end } = plan[k] {
            groups_are_sums(lens, members);
        }
    }
}

/// Keeping segments apart makes a plan too.
pub proof fn separating_makes_a_plan(
    lens: Seq<usize>,
    ranges: Seq<Seq<(usize, usize)>>,
    limit: int,
)
    requires
        lens.len() <= usize::MAX,
        ranges.len() == lens.len(),
        limit >= 1600,
    ensures
        is_plan(separate_chunks(lens, ranges, limit, lens.len() as int), lens, ranges, limit),
        forall|k: int|
            0 <= k < separate_chunks(lens, ranges, limit, lens.len() as int).len() ==> !(
            #[trigger] separate_chunks(lens, ranges, limit, lens.len() as int)[k] is Merged),
{
    let n = lens.len() as int;
    let plan = separate_chunks(lens, ranges, limit, n);
    separating_keeps_every_segment(lens, ranges, limit, n);
    fitting_segments_fit(lens, limit, n);
    separating_in_order(lens, ranges, limit, n);
    assert forall|i: int| 0 <= i < lens.len() implies #[trigger] parts_of(plan, i as usize) == (
    if lens[i] > limit {
        Seq::new(
            ranges[i].len(),
            |r: int|
                ChunkView::Part { segment: i as usize, from: ranges[i][r].0, to: ranges[i][r].1 },
        )
    } else {
        Seq::empty()
    }) by {
        separating_cuts(lens, ranges, limit, n, i as usize);
        if lens[i] > limit {
            assert(part_chunks(i as usize, ranges[i]) =~= Seq::new(
                ranges[i].len(),
                |r: int|
                    ChunkView::Part { segment: i as usize, from: ranges[i][r].0, to: ranges[i][r].1 },
            ));
        }
    }
}

/// Segments that are all too short make no chunks.
pub proof fn short_segments_make_no_chunks(
    lens: Seq<usize>,
    ranges: Seq<Seq<(usize, usize)>>,
    limit: int,
    n: int,
)
    requires
        0 <= n <= lens.len(),
        all_short(lens, 0, n),
    ensures
        merging(lens, ranges, limit, n) == (Seq::<ChunkView>::empty(), Seq::<usize>::empty()),
        separate_chunks(lens, ranges, limit, n).len() == 0,
    decreases n,
{
    if n > 0 {
        assert(lens[n - 1] < 1600);
        short_segments_make_no_chunks(lens, ranges, limit, n - 1);
    }
}

} // verus!
