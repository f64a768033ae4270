//! The matrix scanner: a debounced state machine per key-switch coordinate.
//!
//! Each scan tick the driver layer drives one output line at a time and reads
//! every input line; it hands the whole grid of raw readings to `scan`, which
//! debounces every coordinate and returns the transitions that became
//! trustworthy during that sweep, buffered so that publishing never
//! interleaves with line driving. A raw level must hold steadily for at least
//! `debounce_threshold` consecutive ticks before its transition is published.
use vstd::prelude::*;

use crate::reactor_event::ReactorEvent;

verus! {

/// How the electrical grid maps to logical coordinates: whether the driven
/// output lines are the columns or the rows of the key matrix.
#[derive(Clone, Copy, PartialEq, Eq, Structural, Debug)]
pub enum MatrixDirection {
    Col2Row,
    Row2Col,
}

/// Debounce state of one coordinate: the published (debounced) level, the
/// raw level seen on the previous tick, and how many consecutive ticks the
/// raw level has held (saturating).
#[derive(Clone, Copy, PartialEq, Eq, Structural, Debug)]
pub struct CellState {
    pub stable: bool,
    pub last_raw: bool,
    pub age: u16,
}

impl CellState {
    /// The rest state: released, and settled that way for as long as the
    /// counter can express.
    pub open spec fn idle() -> CellState {
        CellState { stable: false, last_raw: false, age: u16::MAX }
    }

    /// The run counter after sampling `raw`: reset on a level change,
    /// saturating increment otherwise.
    pub open spec fn step_age(self, raw: bool) -> u16 {
        if raw != self.last_raw {
            1u16
        } else if self.age == u16::MAX {
            u16::MAX
        } else {
            (self.age + 1) as u16
        }
    }

    /// Whether sampling `raw` publishes a transition: the raw level differs
    /// from the published one and has now held for `threshold` ticks.
    pub open spec fn step_emits(self, raw: bool, threshold: u16) -> bool {
        raw != self.stable && self.step_age(raw) >= threshold
    }

    /// The state after sampling `raw`.
    pub open spec fn step_spec(self, raw: bool, threshold: u16) -> CellState {
        CellState {
            stable: if self.step_emits(raw, threshold) {
                raw
            } else {
                self.stable
            },
            last_raw: raw,
            age: self.step_age(raw),
        }
    }

    /// A coordinate that has never seen a press.
    pub fn new() -> (r: CellState)
        ensures
            r == CellState::idle(),
    {
        CellState { stable: false, last_raw: false, age: u16::MAX }
    }

    /// Feeds one raw sample through the debounce machine; returns the newly
    /// trusted level when this sample completes a transition.
    pub fn sample(self, raw: bool, threshold: u16) -> (r: (CellState, Option<bool>))
        ensures
            r.0 == self.step_spec(raw, threshold),
            r.1 == (if self.step_emits(raw, threshold) {
                Some(raw)
            } else {
                None::<bool>
            }),
    {
        let age: u16 = if raw != self.last_raw {
            1
        } else if self.age == u16::MAX {
            u16::MAX
        } else {
            self.age + 1
        };
        let emits = raw != self.stable && age >= threshold;
        let next = CellState { stable: if emits { raw } else { self.stable }, last_raw: raw, age };
        (next, if emits { Some(raw) } else { None })
    }
}

/// Logical row of the coordinate scanned as output line `oi`, input line `ii`.
pub open spec fn coord_row(dir: MatrixDirection, oi: int, ii: int) -> int {
    match dir {
        MatrixDirection::Col2Row => ii,
        MatrixDirection::Row2Col => oi,
    }
}

/// Logical column of the coordinate scanned as output line `oi`, input line `ii`.
pub open spec fn coord_col(dir: MatrixDirection, oi: int, ii: int) -> int {
    match dir {
        MatrixDirection::Col2Row => oi,
        MatrixDirection::Row2Col => ii,
    }
}

/// The events one coordinate contributes to a sweep: the debounced
/// transition if its raw sample completes one, else nothing.
pub open spec fn sweep_cell_events(
    cells: Seq<Vec<CellState>>,
    readings: Seq<Vec<bool>>,
    dir: MatrixDirection,
    threshold: u16,
    oi: int,
    ii: int,
) -> Seq<ReactorEvent> {
    let r = coord_row(dir, oi, ii);
    let c = coord_col(dir, oi, ii);
    let raw = readings[oi]@[ii];
    if cells[r]@[c].step_emits(raw, threshold) {
        seq![ReactorEvent::HardwareMappedBool(raw, r as usize, c as usize)]
    } else {
        Seq::empty()
    }
}

/// The events of one output line's sweep, over its first `ii` input lines.
pub open spec fn sweep_line_events(
    cells: Seq<Vec<CellState>>,
    readings: Seq<Vec<bool>>,
    dir: MatrixDirection,
    threshold: u16,
    oi: int,
    ii: int,
) -> Seq<ReactorEvent>
    decreases ii,
{
    if ii <= 0 {
        Seq::empty()
    } else {
        sweep_line_events(cells, readings, dir, threshold, oi, ii - 1) + sweep_cell_events(
            cells,
            readings,
            dir,
            threshold,
            oi,
            ii - 1,
        )
    }
}

/// The events of a whole sweep over the first `oi` output lines, in scan
/// order: output line by output line, input line by input line.
pub open spec fn sweep_events(
    cells: Seq<Vec<CellState>>,
    readings: Seq<Vec<bool>>,
    dir: MatrixDirection,
    threshold: u16,
    oi: int,
    num_inputs: int,
) -> Seq<ReactorEvent>
    decreases oi,
{
    if oi <= 0 {
        Seq::empty()
    } else {
        sweep_events(cells, readings, dir, threshold, oi - 1, num_inputs) + sweep_line_events(
            cells,
            readings,
            dir,
            threshold,
            oi - 1,
            num_inputs,
        )
    }
}

/// The debounced scanner for a grid of `num_outputs` driven lines crossed
/// with `num_inputs` read lines.
pub struct Matrix {
    cells: Vec<Vec<CellState>>,
    direction: MatrixDirection,
    num_inputs: usize,
    num_outputs: usize,
    debounce_threshold: u16,
}

impl Matrix {
    /// Debounce state per logical coordinate, row-major.
    pub closed spec fn cells(self) -> Seq<Vec<CellState>> {
        self.cells@
    }

    /// The state of the coordinate at `(r, c)`.
    pub closed spec fn cell(self, r: int, c: int) -> CellState {
        self.cells@[r]@[c]
    }

    /// The configured grid orientation.
    pub closed spec fn direction(self) -> MatrixDirection {
        self.direction
    }

    /// Number of read lines.
    pub closed spec fn inputs(self) -> usize {
        self.num_inputs
    }

    /// Number of driven lines.
    pub closed spec fn outputs(self) -> usize {
        self.num_outputs
    }

    /// Ticks a raw level must hold before its transition is trusted.
    pub closed spec fn threshold(self) -> u16 {
        self.debounce_threshold
    }

    /// Number of logical rows.
    pub open spec fn rows(self) -> int {
        coord_row(self.direction(), self.outputs() as int, self.inputs() as int)
    }

    /// Number of logical columns.
    pub open spec fn cols(self) -> int {
        coord_col(self.direction(), self.outputs() as int, self.inputs() as int)
    }

    /// The cell grid has exactly the configured dimensions.
    pub closed spec fn wf(self) -> bool {
        &&& self.cells@.len() == self.rows()
        &&& forall|r: int| 0 <= r < self.cells@.len() ==> self.cells@[r]@.len() == self.cols()
    }

    /// A scanner whose coordinates all start released and settled.
    pub fn new(
        num_inputs: usize,
        num_outputs: usize,
        direction: MatrixDirection,
        debounce_threshold: u16,
    ) -> (r: Matrix)
        requires
            num_inputs >= 1,
            num_outputs >= 1,
        ensures
            r.wf(),
            r.direction() == direction,
            r.inputs() == num_inputs,
            r.outputs() == num_outputs,
            r.threshold() == debounce_threshold,
            forall|i: int, j: int|
                0 <= i < r.rows() && 0 <= j < r.cols() ==> r.cell(i, j) == CellState::idle(),
    {
        let rows: usize = match direction {
            MatrixDirection::Col2Row => num_inputs,
            MatrixDirection::Row2Col => num_outputs,
        };
        let cols: usize = match direction {
            MatrixDirection::Col2Row => num_outputs,
            MatrixDirection::Row2Col => num_inputs,
        };
        let mut cells: Vec<Vec<CellState>> = Vec::new();
        let mut i: usize = 0;
        while i < rows
            invariant
                i <= rows,
                cells@.len() == i,
                forall|r: int| 0 <= r < i ==> cells@[r]@.len() == cols,
                forall|r: int, c: int|
                    0 <= r < i && 0 <= c < cols ==> cells@[r]@[c] == CellState::idle(),
            decreases rows - i,
        {
            let mut row: Vec<CellState> = Vec::new();
            let mut j: usize = 0;
            while j < cols
                invariant
                    j <= cols,
                    row@.len() == j,
                    forall|c: int| 0 <= c < j ==> row@[c] == CellState::idle(),
                decreases cols - j,
            {
                row.push(CellState::new());
                j += 1;
            }
            cells.push(row);
            i += 1;
        }
        Matrix { cells, direction, num_inputs, num_outputs, debounce_threshold }
    }

    /// Whether the coordinate scanned at `(oi, ii)` has already been visited
    /// when the sweep stands at output line `done_oi`, input line `done_ii`.
    pub open spec fn swept(
        dir: MatrixDirection,
        done_oi: int,
        done_ii: int,
        r: int,
        c: int,
    ) -> bool {
        let oi = match dir {
            MatrixDirection::Col2Row => c,
            MatrixDirection::Row2Col => r,
        };
        let ii = match dir {
            MatrixDirection::Col2Row => r,
            MatrixDirection::Row2Col => c,
        };
        oi < done_oi || (oi == done_oi && ii < done_ii)
    }

    /// One full sweep: feeds every coordinate its fresh raw reading, and
    /// returns the transitions that completed, in scan order, only after the
    /// whole sweep is done. `readings[oi][ii]` is the level of input line
    /// `ii` while output line `oi` was driven.
    pub fn scan(&mut self, readings: &Vec<Vec<bool>>) -> (events: Vec<ReactorEvent>)
        requires
            old(self).wf(),
            readings@.len() == old(self).outputs(),
            forall|oi: int| 0 <= oi < readings@.len() ==> readings@[oi]@.len() == old(self).inputs(),
        ensures
            final(self).wf(),
            final(self).direction() == old(self).direction(),
            final(self).inputs() == old(self).inputs(),
            final(self).outputs() == old(self).outputs(),
            final(self).threshold() == old(self).threshold(),
            forall|r: int, c: int|
                0 <= r < old(self).rows() && 0 <= c < old(self).cols() ==> final(self).cell(r, c)
                    == old(self).cell(r, c).step_spec(
                    readings@[coord_row(old(self).direction(), r, c)]@[coord_col(
                        old(self).direction(),
                        r,
                        c,
                    )],
                    old(self).threshold(),
                ),
            events@ == sweep_events(
                old(self).cells(),
                readings@,
                old(self).direction(),
                old(self).threshold(),
                old(self).outputs() as int,
                old(self).inputs() as int,
            ),
    {
        let mut events: Vec<ReactorEvent> = Vec::new();
        let num_outputs = self.num_outputs;
        let num_inputs = self.num_inputs;
        let mut oi: usize = 0;
        while oi < num_outputs
            invariant
                old(self).wf(),
                num_outputs == old(self).outputs(),
                num_inputs == old(self).inputs(),
                readings@.len() == num_outputs,
                forall|k: int| 0 <= k < readings@.len() ==> readings@[k]@.len() == num_inputs,
                oi <= num_outputs,
                self.wf(),
                self.direction == old(self).direction(),
                self.num_inputs == old(self).inputs(),
                self.num_outputs == old(self).outputs(),
                self.debounce_threshold == old(self).threshold(),
                forall|r: int, c: int|
                    0 <= r < old(self).rows() && 0 <= c < old(self).cols() && Self::swept(
                        old(self).direction(),
                        oi as int,
                        0,
                        r,
                        c,
                    ) ==> self.cell(r, c) == old(self).cell(r, c).step_spec(
                        readings@[coord_row(old(self).direction(), r, c)]@[coord_col(
                            old(self).direction(),
                            r,
                            c,
                        )],
                        old(self).threshold(),
                    ),
                forall|r: int, c: int|
                    0 <= r < old(self).rows() && 0 <= c < old(self).cols() && !Self::swept(
                        old(self).direction(),
                        oi as int,
                        0,
                        r,
                        c,
                    ) ==> self.cell(r, c) == old(self).cell(r, c),
                events@ == sweep_events(
                    old(self).cells(),
                    readings@,
                    old(self).direction(),
                    old(self).threshold(),
                    oi as int,
                    num_inputs as int,
                ),
            decreases num_outputs - oi,
        {
            let mut ii: usize = 0;
            while ii < num_inputs
                invariant
                    old(self).wf(),
                    num_outputs == old(self).outputs(),
                    num_inputs == old(self).inputs(),
                    readings@.len() == num_outputs,
                    forall|k: int| 0 <= k < readings@.len() ==> readings@[k]@.len() == num_inputs,
                    oi < num_outputs,
                    ii <= num_inputs,
                    self.wf(),
                    self.direction == old(self).direction(),
                    self.num_inputs == old(self).inputs(),
                    self.num_outputs == old(self).outputs(),
                    self.debounce_threshold == old(self).threshold(),
                    forall|r: int, c: int|
                        0 <= r < old(self).rows() && 0 <= c < old(self).cols() && Self::swept(
                            old(self).direction(),
                            oi as int,
                            ii as int,
                            r,
                            c,
                        ) ==> self.cell(r, c) == old(self).cell(r, c).step_spec(
                            readings@[coord_row(old(self).direction(), r, c)]@[coord_col(
                                old(self).direction(),
                                r,
                                c,
                            )],
                            old(self).threshold(),
                        ),
                    forall|r: int, c: int|
                        0 <= r < old(self).rows() && 0 <= c < old(self).cols() && !Self::swept(
                            old(self).direction(),
                            oi as int,
                            ii as int,
                            r,
                            c,
                        ) ==> self.cell(r, c) == old(self).cell(r, c),
                    events@ == sweep_events(
                        old(self).cells(),
                        readings@,
                        old(self).direction(),
                        old(self).threshold(),
                        oi as int,
                        num_inputs as int,
                    ) + sweep_line_events(
                        old(self).cells(),
                        readings@,
                        old(self).direction(),
                        old(self).threshold(),
                        oi as int,
                        ii as int,
                    ),
                decreases num_inputs - ii,
            {
                let raw = readings[oi][ii];
                let (row, col): (usize, usize) = match self.direction {
                    MatrixDirection::Col2Row => (ii, oi),
                    MatrixDirection::Row2Col => (oi, ii),
                };
                proof {
                    assert(!Self::swept(
                        old(self).direction(),
                        oi as int,
                        ii as int,
                        row as int,
                        col as int,
                    ));
                }
                let cur = self.cells[row][col];
                let (next, emitted) = cur.sample(raw, self.debounce_threshold);
                let ghost pre = *self;
                self.cells[row][col] = next;
                if let Some(level) = emitted {
                    events.push(ReactorEvent::HardwareMappedBool(level, row, col));
                }
                proof {
                    let dir = old(self).direction();
                    let thr = old(self).threshold();
                    let cells0 = old(self).cells();
                    assert(cur == old(self).cell(row as int, col as int));
                    assert(coord_row(dir, oi as int, ii as int) == row as int);
                    assert(coord_col(dir, oi as int, ii as int) == col as int);
                    assert(self.cells@[row as int]@ == pre.cells@[row as int]@.update(
                        col as int,
                        next,
                    ));
                    assert(forall|r: int|
                        0 <= r < self.cells@.len() && r != row as int ==> self.cells@[r]
                            == pre.cells@[r]);
                    assert(events@ =~= sweep_events(
                        cells0,
                        readings@,
                        dir,
                        thr,
                        oi as int,
                        num_inputs as int,
                    ) + sweep_line_events(cells0, readings@, dir, thr, oi as int, ii as int + 1));
                    assert forall|r: int, c: int|
                        0 <= r < old(self).rows() && 0 <= c < old(self).cols() && Self::swept(
                            dir,
                            oi as int,
                            ii as int + 1,
                            r,
                            c,
                        ) implies self.cell(r, c) == old(self).cell(r, c).step_spec(
                        readings@[coord_row(dir, r, c)]@[coord_col(dir, r, c)],
                        thr,
                    ) by {
                        if r == row as int && c == col as int {
                            assert(self.cell(r, c) == next);
                        } else {
                            assert(Self::swept(dir, oi as int, ii as int, r, c));
                            assert(pre.cell(r, c) == old(self).cell(r, c).step_spec(
                                readings@[coord_row(dir, r, c)]@[coord_col(dir, r, c)],
                                thr,
                            ));
                            assert(self.cell(r, c) == pre.cell(r, c));
                        }
                    }
                    assert forall|r: int, c: int|
                        0 <= r < old(self).rows() && 0 <= c < old(self).cols() && !Self::swept(
                            dir,
                            oi as int,
                            ii as int + 1,
                            r,
                            c,
                        ) implies self.cell(r, c) == old(self).cell(r, c) by {
                        assert(!Self::swept(dir, oi as int, ii as int, r, c));
                        assert(!(r == row as int && c == col as int));
                        assert(self.cell(r, c) == pre.cell(r, c));
                    }
                }
                ii += 1;
            }
            oi += 1;
        }
        events
    }
}

/// The state of one coordinate after it has sampled `samples`, in order,
/// starting from `c`.
pub open spec fn run_cell(c: CellState, samples: Seq<bool>, threshold: u16) -> CellState
    decreases samples.len(),
{
    if samples.len() == 0 {
        c
    } else {
        run_cell(c, samples.drop_last(), threshold).step_spec(samples.last(), threshold)
    }
}

/// The transitions one coordinate publishes while sampling `samples`, in
/// order, starting from `c`.
pub open spec fn run_cell_emits(c: CellState, samples: Seq<bool>, threshold: u16) -> Seq<bool>
    decreases samples.len(),
{
    if samples.len() == 0 {
        Seq::empty()
    } else {
        run_cell_emits(c, samples.drop_last(), threshold) + (if run_cell(
            c,
            samples.drop_last(),
            threshold,
        ).step_emits(samples.last(), threshold) {
            seq![samples.last()]
        } else {
            Seq::empty()
        })
    }
}

/// Length of the constant run of equal samples that ends at index `i`.
pub open spec fn run_len(s: Seq<bool>, i: int) -> int
    decreases i,
{
    if i <= 0 {
        1
    } else if s[i] == s[i - 1] {
        run_len(s, i - 1) + 1
    } else {
        1
    }
}

/// `run_len` only looks at the prefix up to its index, so dropping the last
/// sample does not change it.
proof fn lemma_run_len_prefix(s: Seq<bool>, i: int)
    requires
        0 <= i < s.len() - 1,
    ensures
        run_len(s.drop_last(), i) == run_len(s, i),
    decreases i,
{
    if i > 0 {
        lemma_run_len_prefix(s, i - 1);
    }
}

/// A settled coordinate: the raw level it last trusted is still the level
/// it sees.
pub open spec fn settled(c: CellState, level: bool) -> bool {
    c.stable == level && c.last_raw == level
}

/// Induction carrier for chatter suppression: under fast toggling a settled
/// coordinate never leaves its trusted level, publishes nothing, and its
/// counter tracks the current run of contrary samples.
proof fn lemma_chatter_run(c: CellState, level: bool, s: Seq<bool>, threshold: u16)
    requires
        threshold >= 1,
        settled(c, level),
        forall|i: int| 0 <= i < s.len() ==> run_len(s, i) < threshold,
    ensures
        run_cell(c, s, threshold).stable == level,
        run_cell_emits(c, s, threshold) == Seq::<bool>::empty(),
        s.len() > 0 ==> run_cell(c, s, threshold).last_raw == s.last(),
        s.len() > 0 && s.last() != level ==> run_cell(c, s, threshold).age == run_len(
            s,
            s.len() - 1,
        ),
    decreases s.len(),
{
    if s.len() > 0 {
        let s0 = s.drop_last();
        assert forall|i: int| 0 <= i < s0.len() implies run_len(s0, i) < threshold by {
            lemma_run_len_prefix(s, i);
            assert(run_len(s, i) < threshold);
        }
        lemma_chatter_run(c, level, s0, threshold);
        let prev = run_cell(c, s0, threshold);
        let raw = s.last();
        if s0.len() > 0 && raw != level && s0.last() == raw {
            lemma_run_len_prefix(s, s.len() - 2);
            assert(prev.age == run_len(s, s.len() - 2));
            assert(run_len(s, s.len() - 1) == run_len(s, s.len() - 2) + 1);
        }
        assert(run_len(s, s.len() - 1) < threshold);
    }
}

/// Debounce suppresses chatter: a raw signal that never holds one level for
/// `threshold` consecutive ticks produces no published transition at all,
/// from any settled state.
pub proof fn lemma_debounce_ignores_chatter(
    c: CellState,
    level: bool,
    samples: Seq<bool>,
    threshold: u16,
)
    requires
        threshold >= 1,
        settled(c, level),
        forall|i: int| 0 <= i < samples.len() ==> run_len(samples, i) < threshold,
    ensures
        run_cell_emits(c, samples, threshold) == Seq::<bool>::empty(),
        run_cell(c, samples, threshold).stable == level,
{
    lemma_chatter_run(c, level, samples, threshold);
}

/// Induction carrier for the stable-signal law: while the contrary signal
/// is shorter than the threshold nothing is published and the counter
/// counts it; from the threshold on, exactly one transition has been
/// published.
proof fn lemma_stable_run(c: CellState, level: bool, s: Seq<bool>, threshold: u16)
    requires
        threshold >= 1,
        settled(c, level),
        forall|i: int| 0 <= i < s.len() ==> s[i] == !level,
    ensures
        s.len() > 0 && s.len() < threshold ==> run_cell(c, s, threshold) == (CellState {
            stable: level,
            last_raw: !level,
            age: s.len() as u16,
        }),
        s.len() < threshold ==> run_cell_emits(c, s, threshold) == Seq::<bool>::empty(),
        s.len() >= threshold ==> run_cell(c, s, threshold).stable == !level && run_cell(
            c,
            s,
            threshold,
        ).last_raw == !level,
        s.len() >= threshold ==> run_cell_emits(c, s, threshold) == seq![!level],
    decreases s.len(),
{
    if s.len() > 0 {
        let s0 = s.drop_last();
        lemma_stable_run(c, level, s0, threshold);
        assert(s.last() == !level);
        let prev = run_cell(c, s0, threshold);
        assert(run_cell(c, s, threshold) == prev.step_spec(!level, threshold));
        if s0.len() == 0 {
            assert(prev == c);
            assert(prev.step_age(!level) == 1);
            assert(s.len() == 1);
        } else if s0.len() < threshold {
            assert(prev == (CellState { stable: level, last_raw: !level, age: s0.len() as u16 }));
            assert(prev.age != u16::MAX);
            assert(prev.step_age(!level) == s.len() as u16);
        }
        if s.len() >= threshold && s0.len() < threshold {
            assert(run_cell_emits(c, s, threshold) =~= seq![!level]);
        }
    }
}

/// Held stable for at least `threshold` ticks, a changed raw level
/// publishes exactly one transition, to that level, and nothing after it.
pub proof fn lemma_debounce_single_transition(
    c: CellState,
    level: bool,
    samples: Seq<bool>,
    threshold: u16,
)
    requires
        threshold >= 1,
        settled(c, level),
        samples.len() >= threshold,
        forall|i: int| 0 <= i < samples.len() ==> samples[i] == !level,
    ensures
        run_cell_emits(c, samples, threshold) == seq![!level],
        run_cell(c, samples, threshold).stable == !level,
{
    lemma_stable_run(c, level, samples, threshold);
}

/// One more sweep extends a coordinate's history by one step: this is the
/// bridge between `scan`, whose contract steps every coordinate once per
/// sweep, and the run-level laws above, which speak about whole sample
/// histories.
pub proof fn lemma_run_cell_extend(c: CellState, samples: Seq<bool>, raw: bool, threshold: u16)
    ensures
        run_cell(c, samples.push(raw), threshold) == run_cell(c, samples, threshold).step_spec(
            raw,
            threshold,
        ),
        run_cell_emits(c, samples.push(raw), threshold) == run_cell_emits(c, samples, threshold)
            + (if run_cell(c, samples, threshold).step_emits(raw, threshold) {
            seq![raw]
        } else {
            Seq::<bool>::empty()
        }),
{
    assert(samples.push(raw).drop_last() =~= samples);
    assert(samples.push(raw).last() == raw);
}

} // verus!
