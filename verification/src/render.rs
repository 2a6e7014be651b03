//! The render engine: every slot of the pixel buffer is painted from its own
//! linear index alone, so the slots can be filled in any order and by any
//! number of workers.

use crate::canvas::Canvas;
use crate::escape::{
    escape_time,
    is_escape_time,
    lemma_escape_time_unique,
    single_valued_map,
    single_valued_test,
};
use rayon::iter::IndexedParallelIterator;
use rayon::iter::ParallelIterator;
use rayon::slice::ParallelSliceMut;
use vstd::prelude::*;

verus! {

/// The four collaborators of a render and the iteration cap.
///
/// `locate` maps a supersampled pixel position to a point of the plane,
/// `advance` is the iterated map, `diverged` tells whether a point has left
/// the divergence radius, and `colorize` resolves an iteration count to the
/// red, green, blue and alpha bytes of a pixel.
pub struct Stages<L, A, D, C> {
    pub locate: L,
    pub advance: A,
    pub diverged: D,
    pub colorize: C,
    pub max_iteration: usize,
}

impl<L, A, D, C> Stages<L, A, D, C> {
    /// The collaborators may be called on everything a render of `canvas`
    /// hands them: every position of the canvas, every point, and every count
    /// up to the cap.
    pub open spec fn accepts<Z>(&self, canvas: &Canvas) -> bool where
        L: Fn(usize, usize) -> Z,
        A: Fn(Z) -> Z,
        D: Fn(&Z) -> bool,
        C: Fn(usize) -> [u8; 4],
     {
        &&& forall|px: usize, py: usize|
            px < canvas.sw && py < canvas.sh ==> #[trigger] self.locate.requires((px, py))
        &&& forall|z: Z| #[trigger] self.advance.requires((z,))
        &&& forall|z: Z| #[trigger] self.diverged.requires((&z,))
        &&& forall|k: usize| k <= self.max_iteration ==> #[trigger] self.colorize.requires((k,))
    }

    /// `rgba` is a colour of the pixel at `(px, py)`: the bytes that
    /// `colorize` gives for an escape time of the point that `locate` gives.
    pub open spec fn paints<Z>(&self, px: usize, py: usize, rgba: Seq<u8>) -> bool where
        L: Fn(usize, usize) -> Z,
        A: Fn(Z) -> Z,
        D: Fn(&Z) -> bool,
        C: Fn(usize) -> [u8; 4],
     {
        exists|z0: Z, k: usize, color: [u8; 4]|
            {
                &&& #[trigger] self.locate.ensures((px, py), z0)
                &&& is_escape_time(&self.advance, &self.diverged, z0, self.max_iteration, k)
                &&& #[trigger] self.colorize.ensures((k,), color)
                &&& rgba == color@
            }
    }

    /// Each collaborator has at most one result for each input.
    pub open spec fn single_valued<Z>(&self) -> bool where
        L: Fn(usize, usize) -> Z,
        A: Fn(Z) -> Z,
        D: Fn(&Z) -> bool,
        C: Fn(usize) -> [u8; 4],
     {
        &&& forall|px: usize, py: usize, a: Z, b: Z|
            #[trigger] self.locate.ensures((px, py), a) && #[trigger] self.locate.ensures(
                (px, py),
                b,
            ) ==> a == b
        &&& single_valued_map(&self.advance)
        &&& single_valued_test(&self.diverged)
        &&& forall|k: usize, a: [u8; 4], b: [u8; 4]|
            #[trigger] self.colorize.ensures((k,), a) && #[trigger] self.colorize.ensures((k,), b)
                ==> a == b
    }

    /// Computes the colour of the pixel at `(px, py)`: locate the point,
    /// count its escape time under the cap, resolve the count to a colour.
    pub fn shade<Z>(&self, px: usize, py: usize) -> (rgba: [u8; 4]) where
        L: Fn(usize, usize) -> Z,
        A: Fn(Z) -> Z,
        D: Fn(&Z) -> bool,
        C: Fn(usize) -> [u8; 4],

        requires
            self.locate.requires((px, py)),
            forall|z: Z| #[trigger] self.advance.requires((z,)),
            forall|z: Z| #[trigger] self.diverged.requires((&z,)),
            forall|k: usize| k <= self.max_iteration ==> #[trigger] self.colorize.requires((k,)),
        ensures
            self.paints(px, py, rgba@),
    {
        let z0 = (self.locate)(px, py);
        let k = escape_time(z0, &self.advance, &self.diverged, self.max_iteration);
        let rgba = (self.colorize)(k);
        rgba
    }
}

/// The four bytes of slot `i` of a pixel buffer, at offsets `4 * i` to
/// `4 * i + 4`.
pub open spec fn slot(data: Seq<u8>, i: int) -> Seq<u8> {
    data.subrange(4 * i, 4 * i + 4)
}

/// Every slot from `lo` up to `hi` holds a colour of the pixel with that
/// linear index: row `i / sw`, column `i mod sw`.
pub open spec fn painted_run<Z, L, A, D, C>(
    data: Seq<u8>,
    canvas: &Canvas,
    stages: &Stages<L, A, D, C>,
    lo: int,
    hi: int,
) -> bool where L: Fn(usize, usize) -> Z, A: Fn(Z) -> Z, D: Fn(&Z) -> bool, C: Fn(usize) -> [u8; 4] {
    forall|i: int|
        lo <= i < hi ==> stages.paints(
            canvas.column_of(i),
            canvas.row_of(i),
            #[trigger] slot(data, i),
        )
}

/// `data` is a finished pixel buffer of `canvas`: it has `sw * sh * 4` bytes
/// and every slot is painted.
pub open spec fn is_rendering<Z, L, A, D, C>(
    data: Seq<u8>,
    canvas: &Canvas,
    stages: &Stages<L, A, D, C>,
) -> bool where L: Fn(usize, usize) -> Z, A: Fn(Z) -> Z, D: Fn(&Z) -> bool, C: Fn(usize) -> [u8; 4] {
    &&& data.len() == canvas.spec_buffer_len()
    &&& painted_run(data, canvas, stages, 0, canvas.spec_pixel_count())
}

/// Paints one slot: writes into `chunk` the colour of the pixel with linear
/// index `i`. This is the whole work item of the parallel fan-out; it reads
/// nothing but the canvas and the stages and writes nothing but its own four
/// bytes.
pub fn fill_slot<Z, L, A, D, C>(
    i: usize,
    chunk: &mut [u8],
    canvas: &Canvas,
    stages: &Stages<L, A, D, C>,
) where L: Fn(usize, usize) -> Z, A: Fn(Z) -> Z, D: Fn(&Z) -> bool, C: Fn(usize) -> [u8; 4]
    requires
        canvas.wf(),
        i < canvas.spec_pixel_count(),
        old(chunk)@.len() == 4,
        stages.accepts(canvas),
    ensures
        final(chunk)@.len() == 4,
        stages.paints(
            canvas.column_of(i as int),
            canvas.row_of(i as int),
            final(chunk)@,
        ),
{
    let (px, py) = canvas.position(i);
    let rgba = stages.shade(px, py);
    chunk[0] = rgba[0];
    chunk[1] = rgba[1];
    chunk[2] = rgba[2];
    chunk[3] = rgba[3];
    assert(chunk@ =~= rgba@);
}

/// Hands every four-byte chunk of `data`, with its index, to `fill_slot` on
/// rayon's thread pool, through `par_chunks_mut`, `enumerate` and `for_each`.
///
/// Trusted: rayon cuts the slice into consecutive chunks of four bytes that do
/// not overlap, numbers them from zero in slice order, and runs the closure
/// exactly once on each before it returns. The length is a multiple of four,
/// so no chunk is shorter. What each chunk then holds is what `fill_slot`
/// guarantees.
#[verifier::external_body]
fn par_fill<Z, L, A, D, C>(data: &mut Vec<u8>, canvas: &Canvas, stages: &Stages<L, A, D, C>) where
    L: Fn(usize, usize) -> Z + Sync,
    A: Fn(Z) -> Z + Sync,
    D: Fn(&Z) -> bool + Sync,
    C: Fn(usize) -> [u8; 4] + Sync,

    requires
        canvas.wf(),
        old(data)@.len() == canvas.spec_buffer_len(),
        stages.accepts(canvas),
    ensures
        is_rendering(final(data)@, canvas, stages),
{
    data.par_chunks_mut(4).enumerate().for_each(|(i, chunk)| fill_slot(i, chunk, canvas, stages));
}

/// Renders the whole canvas in parallel, one work item per pixel.
///
/// The buffer that comes back has `sw * sh * 4` bytes, and slot `i` holds the
/// colour of the pixel in row `i / sw` and column `i mod sw`. It is at the
/// supersampled size: nothing here averages it down to the target size.
pub fn render<Z, L, A, D, C>(canvas: &Canvas, stages: &Stages<L, A, D, C>) -> (data: Vec<u8>) where
    L: Fn(usize, usize) -> Z + Sync,
    A: Fn(Z) -> Z + Sync,
    D: Fn(&Z) -> bool + Sync,
    C: Fn(usize) -> [u8; 4] + Sync,

    requires
        canvas.wf(),
        stages.accepts(canvas),
    ensures
        data@.len() == canvas.sw * canvas.sh * 4,
        is_rendering(data@, canvas, stages),
{
    let mut data: Vec<u8> = vec![0u8; canvas.buffer_len()];
    par_fill(&mut data, canvas, stages);
    data
}

/// Paints the slots from `lo` up to `hi` one after the other and leaves every
/// other byte of the buffer as it was.
pub fn fill_run<Z, L, A, D, C>(
    data: &mut Vec<u8>,
    canvas: &Canvas,
    stages: &Stages<L, A, D, C>,
    lo: usize,
    hi: usize,
) where L: Fn(usize, usize) -> Z, A: Fn(Z) -> Z, D: Fn(&Z) -> bool, C: Fn(usize) -> [u8; 4]
    requires
        canvas.wf(),
        old(data)@.len() == canvas.spec_buffer_len(),
        lo <= hi <= canvas.spec_pixel_count(),
        stages.accepts(canvas),
    ensures
        final(data)@.len() == old(data)@.len(),
        painted_run(final(data)@, canvas, stages, lo as int, hi as int),
        forall|j: int|
            0 <= j < old(data)@.len() && !(4 * lo <= j < 4 * hi)
                ==> final(data)@[j] == old(data)@[j],
{
    let mut i: usize = lo;
    while i < hi
        invariant
            canvas.wf(),
            data@.len() == canvas.spec_buffer_len(),
            data@.len() == old(data)@.len(),
            lo <= i <= hi <= canvas.spec_pixel_count(),
            stages.accepts(canvas),
            painted_run(data@, canvas, stages, lo as int, i as int),
            forall|j: int|
                0 <= j < data@.len() && !(4 * lo <= j < 4 * i) ==> data@[j] == old(data)@[j],
        decreases hi - i,
    {
        let (px, py) = canvas.position(i);
        let rgba = stages.shade(px, py);
        let ghost before = data@;
        let base = 4 * i;
        data[base] = rgba[0];
        data[base + 1] = rgba[1];
        data[base + 2] = rgba[2];
        data[base + 3] = rgba[3];
        proof {
            assert(slot(data@, i as int) =~= rgba@);
            assert forall|m: int| lo <= m < i implies stages.paints(
                canvas.column_of(m),
                canvas.row_of(m),
                #[trigger] slot(data@, m),
            ) by {
                assert(slot(data@, m) =~= slot(before, m));
            }
        }
        i = i + 1;
    }
}

/// Renders the whole canvas on the calling thread, slot after slot.
pub fn render_sequential<Z, L, A, D, C>(
    canvas: &Canvas,
    stages: &Stages<L, A, D, C>,
) -> (data: Vec<u8>) where
    L: Fn(usize, usize) -> Z,
    A: Fn(Z) -> Z,
    D: Fn(&Z) -> bool,
    C: Fn(usize) -> [u8; 4],

    requires
        canvas.wf(),
        stages.accepts(canvas),
    ensures
        data@.len() == canvas.sw * canvas.sh * 4,
        is_rendering(data@, canvas, stages),
{
    let mut data: Vec<u8> = vec![0u8; canvas.buffer_len()];
    let n = canvas.pixel_count();
    fill_run(&mut data, canvas, stages, 0, n);
    data
}

/// With single-valued stages a pixel has exactly one colour.
pub proof fn lemma_colour_unique<Z, L, A, D, C>(
    stages: &Stages<L, A, D, C>,
    px: usize,
    py: usize,
    a: Seq<u8>,
    b: Seq<u8>,
) where L: Fn(usize, usize) -> Z, A: Fn(Z) -> Z, D: Fn(&Z) -> bool, C: Fn(usize) -> [u8; 4]
    requires
        stages.single_valued(),
        stages.paints(px, py, a),
        stages.paints(px, py, b),
    ensures
        a == b,
{
    let (za, ka, ca) = choose|z0: Z, k: usize, color: [u8; 4]|
        {
            &&& #[trigger] stages.locate.ensures((px, py), z0)
            &&& is_escape_time(&stages.advance, &stages.diverged, z0, stages.max_iteration, k)
            &&& #[trigger] stages.colorize.ensures((k,), color)
            &&& a == color@
        };
    let (zb, kb, cb) = choose|z0: Z, k: usize, color: [u8; 4]|
        {
            &&& #[trigger] stages.locate.ensures((px, py), z0)
            &&& is_escape_time(&stages.advance, &stages.diverged, z0, stages.max_iteration, k)
            &&& #[trigger] stages.colorize.ensures((k,), color)
            &&& b == color@
        };
    lemma_escape_time_unique(
        &stages.advance,
        &stages.diverged,
        za,
        stages.max_iteration,
        ka,
        kb,
    );
}

/// Rendering is idempotent: with single-valued stages, any two finished
/// buffers of the same canvas are byte for byte the same.
pub proof fn lemma_rendering_unique<Z, L, A, D, C>(
    canvas: &Canvas,
    stages: &Stages<L, A, D, C>,
    a: Seq<u8>,
    b: Seq<u8>,
) where L: Fn(usize, usize) -> Z, A: Fn(Z) -> Z, D: Fn(&Z) -> bool, C: Fn(usize) -> [u8; 4]
    requires
        canvas.wf(),
        stages.single_valued(),
        is_rendering(a, canvas, stages),
        is_rendering(b, canvas, stages),
    ensures
        a == b,
{
    assert forall|j: int| 0 <= j < a.len() implies a[j] == b[j] by {
        let i = j / 4;
        lemma_colour_unique(
            stages,
            canvas.column_of(i),
            canvas.row_of(i),
            slot(a, i),
            slot(b, i),
        );
        assert(a[j] == slot(a, i)[j - 4 * i]);
        assert(b[j] == slot(b, i)[j - 4 * i]);
    }
}

/// `cuts` partitions the index range `0..n` into consecutive runs: it starts
/// at `0`, ends at `n` and never steps back.
pub open spec fn is_partition(cuts: Seq<int>, n: int) -> bool {
    &&& cuts.len() >= 1
    &&& cuts[0] == 0
    &&& cuts[cuts.len() - 1] == n
    &&& forall|j: int| 0 <= j < cuts.len() - 1 ==> #[trigger] cuts[j] <= cuts[j + 1]
}

/// Every run of the partition `cuts` is painted in `data`.
pub open spec fn painted_in_runs<Z, L, A, D, C>(
    data: Seq<u8>,
    canvas: &Canvas,
    stages: &Stages<L, A, D, C>,
    cuts: Seq<int>,
) -> bool where L: Fn(usize, usize) -> Z, A: Fn(Z) -> Z, D: Fn(&Z) -> bool, C: Fn(usize) -> [u8; 4] {
    forall|j: int|
        0 <= j < cuts.len() - 1 ==> painted_run(data, canvas, stages, #[trigger] cuts[j], cuts[j + 1])
}

/// An index inside a partitioned range lies in one of the runs, at or after
/// run `from`.
proof fn lemma_find_run(cuts: Seq<int>, n: int, i: int, from: int) -> (j: int)
    requires
        is_partition(cuts, n),
        0 <= from < cuts.len(),
        cuts[from] <= i < n,
    ensures
        0 <= j < cuts.len() - 1,
        cuts[j] <= i < cuts[j + 1],
    decreases cuts.len() - from,
{
    if i < cuts[from + 1] {
        from
    } else {
        lemma_find_run(cuts, n, i, from + 1)
    }
}

/// A buffer painted run by run, whatever the partition, is a finished
/// rendering.
pub proof fn lemma_runs_make_rendering<Z, L, A, D, C>(
    data: Seq<u8>,
    canvas: &Canvas,
    stages: &Stages<L, A, D, C>,
    cuts: Seq<int>,
) where L: Fn(usize, usize) -> Z, A: Fn(Z) -> Z, D: Fn(&Z) -> bool, C: Fn(usize) -> [u8; 4]
    requires
        data.len() == canvas.spec_buffer_len(),
        is_partition(cuts, canvas.spec_pixel_count()),
        painted_in_runs(data, canvas, stages, cuts),
    ensures
        is_rendering(data, canvas, stages),
{
    assert forall|i: int| 0 <= i < canvas.spec_pixel_count() implies stages.paints(
        canvas.column_of(i),
        canvas.row_of(i),
        #[trigger] slot(data, i),
    ) by {
        lemma_find_run(cuts, canvas.spec_pixel_count(), i, 0);
    }
}

/// The partition does not matter: with single-valued stages, two buffers of
/// the same canvas that were painted run by run, each along its own
/// partition of the index range, are byte for byte the same.
pub proof fn lemma_partition_independent<Z, L, A, D, C>(
    canvas: &Canvas,
    stages: &Stages<L, A, D, C>,
    a: Seq<u8>,
    cuts_a: Seq<int>,
    b: Seq<u8>,
    cuts_b: Seq<int>,
) where L: Fn(usize, usize) -> Z, A: Fn(Z) -> Z, D: Fn(&Z) -> bool, C: Fn(usize) -> [u8; 4]
    requires
        canvas.wf(),
        stages.single_valued(),
        a.len() == canvas.spec_buffer_len(),
        b.len() == canvas.spec_buffer_len(),
        is_partition(cuts_a, canvas.spec_pixel_count()),
        is_partition(cuts_b, canvas.spec_pixel_count()),
        painted_in_runs(a, canvas, stages, cuts_a),
        painted_in_runs(b, canvas, stages, cuts_b),
    ensures
        a == b,
{
    lemma_runs_make_rendering(a, canvas, stages, cuts_a);
    lemma_runs_make_rendering(b, canvas, stages, cuts_b);
    lemma_rendering_unique(canvas, stages, a, b);
}

} // verus!
