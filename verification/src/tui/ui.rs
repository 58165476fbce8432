//! Span batching of terminal rows.
//!
//! Drawing one styled span per cell would be wasteful, so each row of the
//! frame buffer is cut into maximal runs of consecutive cells that share the
//! same pair of colours. Each run becomes one span of half blocks whose
//! foreground is the top colour and whose background is the bottom colour.
use vstd::prelude::*;

use crate::render::framebuffer::{Cell, FrameBuffer};

verus! {

/// `len` consecutive cells of one row, all equal to `cell`.
#[derive(Clone, Copy, Debug, PartialEq, Eq, Structural)]
pub struct StyleRun {
    /// The colours shared by every cell of the run.
    pub cell: Cell,
    /// Number of cells in the run.
    pub len: usize,
}

/// The cells that a run stands for.
pub open spec fn run_cells(run: StyleRun) -> Seq<Cell> {
    Seq::new(run.len as nat, |i: int| run.cell)
}

/// The cells that a list of runs stands for, in order.
pub open spec fn expand_runs(runs: Seq<StyleRun>) -> Seq<Cell>
    decreases runs.len(),
{
    if runs.len() == 0 {
        Seq::empty()
    } else {
        expand_runs(runs.drop_last()) + run_cells(runs.last())
    }
}

/// No run is empty, and neighbouring runs differ in colour, so no two runs
/// could be merged.
pub open spec fn runs_maximal(runs: Seq<StyleRun>) -> bool {
    &&& forall|i: int| 0 <= i < runs.len() ==> #[trigger] runs[i].len > 0
    &&& forall|i: int, j: int|
        #![trigger runs[i], runs[j]]
        0 <= i && j == i + 1 && j < runs.len() ==> runs[i].cell != runs[j].cell
}

/// The cells of row `y` of a frame buffer.
pub open spec fn row_cells(fb: &FrameBuffer, y: int) -> Seq<Cell> {
    fb.cells@.subrange(y * fb.width, y * fb.width + fb.width)
}

/// Appending a run appends its cells.
proof fn lemma_expand_push(runs: Seq<StyleRun>, run: StyleRun)
    ensures
        expand_runs(runs.push(run)) == expand_runs(runs) + run_cells(run),
{
    assert(runs.push(run).drop_last() =~= runs);
}

/// A list of non-empty runs stands for at least one cell per run, and its
/// last cell is that of the last run.
proof fn lemma_expand_last(runs: Seq<StyleRun>)
    requires
        runs.len() > 0,
        forall|i: int| 0 <= i < runs.len() ==> #[trigger] runs[i].len > 0,
    ensures
        expand_runs(runs).len() >= runs.last().len,
        expand_runs(runs).len() > 0,
        expand_runs(runs).last() == runs.last().cell,
{
    let last = runs.last();
    let e = expand_runs(runs);
    assert(e == expand_runs(runs.drop_last()) + run_cells(last));
    assert(e[e.len() - 1] == run_cells(last)[last.len - 1]);
}

/// Dropping the last run of a maximal list leaves a maximal list.
proof fn lemma_maximal_drop_last(runs: Seq<StyleRun>)
    requires
        runs.len() > 0,
        runs_maximal(runs),
    ensures
        runs_maximal(runs.drop_last()),
{
    let p = runs.drop_last();
    assert forall|i: int| 0 <= i < p.len() implies #[trigger] p[i].len > 0 by {
        assert(p[i] == runs[i]);
    }
    assert forall|i: int, j: int| 0 <= i && j == i + 1 && j < p.len() implies #[trigger] p[i].cell
        != #[trigger] p[j].cell by {
        assert(p[i] == runs[i] && p[j] == runs[j]);
    }
}

/// Of two maximal lists of runs that stand for the same cells, the last run
/// of the first is not shorter than the last run of the second.
proof fn lemma_last_run_not_shorter(a: Seq<StyleRun>, b: Seq<StyleRun>)
    requires
        runs_maximal(a),
        runs_maximal(b),
        a.len() > 0,
        b.len() > 0,
        expand_runs(a) == expand_runs(b),
    ensures
        a.last().len >= b.last().len,
{
    let e = expand_runs(a);
    let la = a.last();
    let lb = b.last();
    lemma_expand_last(a);
    lemma_expand_last(b);
    if la.len < lb.len {
        let pa = a.drop_last();
        let pe = expand_runs(pa);
        assert(e == pe + run_cells(la));
        assert(expand_runs(b) == expand_runs(b.drop_last()) + run_cells(lb));
        if pa.len() == 0 {
            assert(pe.len() == 0);
            assert(false);
        } else {
            lemma_maximal_drop_last(a);
            lemma_expand_last(pa);
            let k = pe.len() - 1;
            assert(e[k] == pe.last());
            assert(pa.last() == a[a.len() - 2]);
            assert(a[a.len() - 2].cell != a[a.len() - 1].cell);
            let pbe = expand_runs(b.drop_last());
            assert(k >= pbe.len());
            assert(e[k] == run_cells(lb)[k - pbe.len()]);
            assert(false);
        }
    }
}

/// The maximal runs of a row are unique: two maximal lists of runs that
/// stand for the same cells are equal. So the batching of a row is fully
/// determined by the row.
pub proof fn lemma_runs_unique(a: Seq<StyleRun>, b: Seq<StyleRun>)
    requires
        runs_maximal(a),
        runs_maximal(b),
        expand_runs(a) == expand_runs(b),
    ensures
        a == b,
    decreases a.len(),
{
    if a.len() == 0 || b.len() == 0 {
        if a.len() > 0 {
            lemma_expand_last(a);
        }
        if b.len() > 0 {
            lemma_expand_last(b);
        }
        assert(a =~= b);
    } else {
        lemma_last_run_not_shorter(a, b);
        lemma_last_run_not_shorter(b, a);
        lemma_expand_last(a);
        lemma_expand_last(b);
        let la = a.last();
        let lb = b.last();
        assert(la == lb);
        let pa = a.drop_last();
        let pb = b.drop_last();
        let e = expand_runs(a);
        assert(e == expand_runs(pa) + run_cells(la));
        assert(e == expand_runs(pb) + run_cells(lb));
        assert(expand_runs(pa) =~= e.subrange(0, e.len() - la.len));
        assert(expand_runs(pb) =~= e.subrange(0, e.len() - lb.len));
        lemma_maximal_drop_last(a);
        lemma_maximal_drop_last(b);
        lemma_runs_unique(pa, pb);
        assert(a =~= pa.push(la));
        assert(b =~= pb.push(lb));
    }
}

/// Cuts the cells of row `y` into maximal runs of equal cells.
pub fn row_runs(fb: &FrameBuffer, y: u16) -> (runs: Vec<StyleRun>)
    requires
        fb.wf(),
        y < fb.height,
    ensures
        expand_runs(runs@) == row_cells(fb, y as int),
        runs_maximal(runs@),
{
    let w = fb.width as usize;
    let n = fb.cells.len();
    proof {
        assert(y * fb.width + fb.width <= fb.width * fb.height) by (nonlinear_arith)
            requires
                y < fb.height,
                0 <= fb.width,
        ;
        assert(0 <= y * fb.width) by (nonlinear_arith)
            requires
                0 <= y,
                0 <= fb.width,
        ;
    }
    let start = y as usize * w;
    let ghost row = row_cells(fb, y as int);
    let mut runs: Vec<StyleRun> = Vec::new();
    if w == 0 {
        assert(row =~= Seq::<Cell>::empty());
        return runs;
    }
    let mut cur: Cell = fb.cells[start];
    let mut cur_len: usize = 1;
    let mut i: usize = 1;
    assert(Seq::new(1, |k: int| cur) =~= row.take(1));
    while i < w
        invariant
            w == fb.width,
            start == y * fb.width,
            start + w <= fb.cells@.len(),
            n == fb.cells@.len(),
            row == row_cells(fb, y as int),
            1 <= i <= w,
            1 <= cur_len <= i,
            expand_runs(runs@) + Seq::new(cur_len as nat, |k: int| cur) == row.take(i as int),
            runs_maximal(runs@),
            runs@.len() > 0 ==> runs@.last().cell != cur,
        decreases w - i,
    {
        let c = fb.cells[start + i];
        assert(c == row[i as int]);
        let ghost prev = expand_runs(runs@);
        assert(row.take(i + 1) =~= row.take(i as int).push(c));
        if c == cur {
            assert(Seq::new((cur_len + 1) as nat, |k: int| cur) =~= Seq::new(
                cur_len as nat,
                |k: int| cur,
            ).push(cur));
            assert(prev + Seq::new((cur_len + 1) as nat, |k: int| cur) =~= (prev + Seq::new(
                cur_len as nat,
                |k: int| cur,
            )).push(c));
            cur_len = cur_len + 1;
        } else {
            let run = StyleRun { cell: cur, len: cur_len };
            let ghost old_runs = runs@;
            proof {
                lemma_expand_push(old_runs, run);
                assert(run_cells(run) =~= Seq::new(cur_len as nat, |k: int| cur));
            }
            runs.push(run);
            assert(runs@ == old_runs.push(run));
            assert(Seq::new(1, |k: int| c) =~= Seq::<Cell>::empty().push(c));
            assert(expand_runs(runs@) + Seq::new(1, |k: int| c) =~= (prev + Seq::new(
                cur_len as nat,
                |k: int| cur,
            )).push(c));
            cur = c;
            cur_len = 1;
        }
        i = i + 1;
    }
    let run = StyleRun { cell: cur, len: cur_len };
    proof {
        lemma_expand_push(runs@, run);
        assert(run_cells(run) =~= Seq::new(cur_len as nat, |k: int| cur));
        assert(row.take(w as int) =~= row);
    }
    runs.push(run);
    runs
}

/// Cuts every row of the frame buffer into maximal runs of equal cells:
/// one list of runs per row, top to bottom.
pub fn frame_runs(fb: &FrameBuffer) -> (lines: Vec<Vec<StyleRun>>)
    requires
        fb.wf(),
    ensures
        lines@.len() == fb.height,
        forall|y: int|
            0 <= y < fb.height ==> {
                &&& expand_runs(#[trigger] lines@[y]@) == row_cells(fb, y)
                &&& runs_maximal(lines@[y]@)
            },
{
    let mut lines: Vec<Vec<StyleRun>> = Vec::new();
    let mut y: u16 = 0;
    while y < fb.height
        invariant
            fb.wf(),
            y <= fb.height,
            lines@.len() == y,
            forall|k: int|
                0 <= k < y ==> {
                    &&& expand_runs(#[trigger] lines@[k]@) == row_cells(fb, k)
                    &&& runs_maximal(lines@[k]@)
                },
        decreases fb.height - y,
    {
        let runs = row_runs(fb, y);
        lines.push(runs);
        y = y + 1;
    }
    lines
}

} // verus!
