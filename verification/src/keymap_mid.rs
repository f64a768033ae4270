//! The keymap resolver: maps debounced matrix coordinates to logical keys
//! through a stack of layers, tracks which coordinate currently holds which
//! transition, and resolves internal control actions (layer switching)
//! without ever letting a key stay logically stuck.
//!
//! On a layer change every coordinate still held down is forcibly released
//! and a release event is emitted for it, so no press made under the old
//! layer can survive the switch.
use vstd::prelude::*;

use crate::keycode::KeyCode;
use crate::reactor_event::InternalEvent;
use crate::reactor_event::KeyCodeInt;
use crate::reactor_event::KeyEvent;
use crate::reactor_event::ReactorEvent;

verus! {

/// The layer that is active after applying `action` when `current` of
/// `count` layers is active: next and previous wrap around, a direct change
/// to an out-of-range target falls back to layer 0, and non-layer actions
/// leave the layer alone.
pub open spec fn layer_after(action: InternalEvent, current: int, count: int) -> int {
    match action {
        InternalEvent::LayerNext => if current + 1 < count {
            current + 1
        } else {
            0
        },
        InternalEvent::LayerPrev => if current == 0 {
            count - 1
        } else {
            current - 1
        },
        InternalEvent::LayerChange(t) => if t < count {
            t as int
        } else {
            0
        },
        _ => current,
    }
}

/// A held transition forced to its released form: a pressed key becomes
/// released, everything else stays as it is.
pub open spec fn release_cell(e: KeyEvent) -> KeyEvent {
    match e {
        KeyEvent::Pressed(k) => KeyEvent::Released(k),
        _ => e,
    }
}

/// The edge logic of one coordinate: a raw high while released presses the
/// key the active layer maps there; a raw low while pressed releases it;
/// anything else changes nothing.
pub open spec fn edge_next(cur: KeyEvent, value: bool, k: KeyCode) -> KeyEvent {
    match cur {
        KeyEvent::Released(_) => if value {
            KeyEvent::Pressed(k)
        } else {
            cur
        },
        KeyEvent::Pressed(_) => if !value {
            KeyEvent::Released(k)
        } else {
            cur
        },
    }
}

/// The release events of the first `c` cells of one row, in column order:
/// one `Released` per cell still pressed.
pub open spec fn release_events_row(row: Seq<KeyEvent>, c: int) -> Seq<ReactorEvent>
    decreases c,
{
    if c <= 0 {
        Seq::empty()
    } else {
        release_events_row(row, c - 1) + (match row[c - 1] {
            KeyEvent::Pressed(k) => seq![ReactorEvent::Key(KeyEvent::Released(k))],
            _ => Seq::empty(),
        })
    }
}

/// The release events of the first `r` rows of the held grid, row-major:
/// one `Released` per coordinate still pressed.
pub open spec fn release_events(held: Seq<Vec<KeyEvent>>, r: int, cols: int) -> Seq<ReactorEvent>
    decreases r,
{
    if r <= 0 {
        Seq::empty()
    } else {
        release_events(held, r - 1, cols) + release_events_row(held[r - 1]@, cols)
    }
}

/// The raw value and coordinate of a matrix event; anything else reads as a
/// dummy, guarded by `is_hw` wherever it matters.
pub open spec fn hw_value(event: ReactorEvent) -> bool {
    match event {
        ReactorEvent::HardwareMappedBool(v, _, _) => v,
        _ => false,
    }
}

/// The row of a matrix event.
pub open spec fn hw_row(event: ReactorEvent) -> int {
    match event {
        ReactorEvent::HardwareMappedBool(_, r, _) => r as int,
        _ => 0,
    }
}

/// The column of a matrix event.
pub open spec fn hw_col(event: ReactorEvent) -> int {
    match event {
        ReactorEvent::HardwareMappedBool(_, _, c) => c as int,
        _ => 0,
    }
}

/// Whether `event` is a raw matrix event, the only kind this resolver acts
/// on.
pub open spec fn is_hw(event: ReactorEvent) -> bool {
    event matches ReactorEvent::HardwareMappedBool(_, _, _)
}

/// The layered keymap and the per-coordinate held state. The table is
/// immutable after construction; exactly one layer is active at a time.
pub struct Keymap {
    /// The key assignment per `[layer][row][column]`; every layer has the
    /// same dimensions as the physical matrix.
    pub layers: Vec<Vec<Vec<KeyCodeInt>>>,
    /// Configured debounce/hold parameter, carried for the scanning layer.
    pub hold_cycles: u16,
    /// The index of the active layer; always within the table.
    pub current_layer: usize,
    /// The last published transition per coordinate, row-major.
    pub last_state: Vec<Vec<KeyEvent>>,
}

impl Keymap {
    /// The index of the active layer.
    pub open spec fn layer(self) -> int {
        self.current_layer as int
    }

    /// The held transition per coordinate, row-major.
    pub open spec fn held(self) -> Seq<Vec<KeyEvent>> {
        self.last_state@
    }

    /// The held transition of the coordinate at `(r, c)`.
    pub open spec fn held_at(self, r: int, c: int) -> KeyEvent {
        self.held()[r]@[c]
    }

    /// How many layers the table has.
    pub open spec fn layer_count(self) -> int {
        self.layers@.len() as int
    }

    /// Rows of the table (and of the physical matrix).
    pub open spec fn rows(self) -> int {
        self.layers@[0]@.len() as int
    }

    /// Columns of the table (and of the physical matrix).
    pub open spec fn cols(self) -> int {
        self.layers@[0]@[0]@.len() as int
    }

    /// The table entry of layer `l` at `(r, c)`.
    pub open spec fn cell(self, l: int, r: int, c: int) -> KeyCodeInt {
        self.layers@[l]@[r]@[c]
    }

    /// Structural soundness: at least one layer, all layers of equal
    /// dimensions, the held grid of the same dimensions, and the active
    /// layer in range.
    pub open spec fn wf(self) -> bool {
        &&& self.layers@.len() >= 1
        &&& self.rows() >= 1
        &&& forall|l: int| 0 <= l < self.layers@.len() ==> self.layers@[l]@.len() == self.rows()
        &&& forall|l: int, r: int|
            0 <= l < self.layers@.len() && 0 <= r < self.rows() ==> self.layers@[l]@[r]@.len()
                == self.cols()
        &&& self.last_state@.len() == self.rows()
        &&& forall|r: int| 0 <= r < self.rows() ==> self.last_state@[r]@.len() == self.cols()
        &&& 0 <= self.layer() < self.layer_count()
    }

    /// Whether no coordinate is held pressed.
    pub open spec fn nothing_pressed(self) -> bool {
        forall|r: int, c: int|
            0 <= r < self.rows() && 0 <= c < self.cols() ==> !(#[trigger] self.held_at(r, c)
            matches KeyEvent::Pressed(_))
    }

    /// A resolver over `keymap`, starting on layer 0 with every coordinate
    /// released.
    pub fn new(keymap: Vec<Vec<Vec<KeyCodeInt>>>, hold_cycles: u16) -> (r: Keymap)
        requires
            keymap@.len() >= 1,
            keymap@[0]@.len() >= 1,
            forall|l: int| 0 <= l < keymap@.len() ==> (#[trigger] keymap@[l]@.len()) == keymap@[0]@.len(),
            forall|l: int, r: int|
                0 <= l < keymap@.len() && 0 <= r < keymap@[0]@.len()
                    ==> (#[trigger] keymap@[l]@[r]@.len()) == keymap@[0]@[0]@.len(),
        ensures
            r.wf(),
            r.layers == keymap,
            r.hold_cycles == hold_cycles,
            r.layer() == 0,
            forall|i: int, j: int|
                0 <= i < r.rows() && 0 <= j < r.cols() ==> r.held_at(i, j) == KeyEvent::Released(
                    KeyCode::NoKey,
                ),
    {
        let rows = keymap[0].len();
        let cols = keymap[0][0].len();
        let mut last_state: Vec<Vec<KeyEvent>> = Vec::new();
        let mut i: usize = 0;
        while i < rows
            invariant
                i <= rows,
                last_state@.len() == i,
                forall|r: int| 0 <= r < i ==> last_state@[r]@.len() == cols,
                forall|r: int, c: int|
                    0 <= r < i && 0 <= c < cols ==> last_state@[r]@[c] == KeyEvent::Released(
                        KeyCode::NoKey,
                    ),
            decreases rows - i,
        {
            let mut row: Vec<KeyEvent> = Vec::new();
            let mut j: usize = 0;
            while j < cols
                invariant
                    j <= cols,
                    row@.len() == j,
                    forall|c: int| 0 <= c < j ==> row@[c] == KeyEvent::Released(KeyCode::NoKey),
                decreases cols - j,
            {
                row.push(KeyEvent::Released(KeyCode::NoKey));
                j += 1;
            }
            last_state.push(row);
            i += 1;
        }
        Keymap { layers: keymap, hold_cycles, current_layer: 0, last_state }
    }

    /// Resolves one bus event. Only raw matrix events are acted on; the
    /// result is the list of events to republish, in order.
    ///
    /// A coordinate mapped to a key follows the edge logic and republishes
    /// the transition when it changes. A coordinate mapped to an internal
    /// layer action moves the active layer, and if the layer actually
    /// changed, force-releases every held coordinate, emitting one
    /// `Released` per held key, so nothing stays pressed across the switch.
    pub fn process(&mut self, event: ReactorEvent) -> (out: Vec<ReactorEvent>)
        requires
            old(self).wf(),
            event matches ReactorEvent::HardwareMappedBool(v, r, c) ==> r < old(self).rows() && c
                < old(self).cols(),
        ensures
            final(self).wf(),
            final(self).layers == old(self).layers,
            final(self).hold_cycles == old(self).hold_cycles,
            !is_hw(event) ==> *final(self) == *old(self) && out@ == Seq::<ReactorEvent>::empty(),
            old(self).cell(old(self).layer(), hw_row(event), hw_col(event)) matches
                KeyCodeInt::Internal(action) ==> (is_hw(event) ==> {
                let nl = layer_after(action, old(self).layer(), old(self).layer_count());
                &&& final(self).layer() == nl
                &&& (nl == old(self).layer() ==> *final(self) == *old(self) && out@ == Seq::<
                    ReactorEvent,
                >::empty())
                &&& (nl != old(self).layer() ==> {
                    &&& forall|r: int, c: int|
                        0 <= r < old(self).rows() && 0 <= c < old(self).cols()
                            ==> final(self).held_at(r, c) == release_cell(old(self).held_at(r, c))
                    &&& final(self).nothing_pressed()
                    &&& out@ == release_events(old(self).held(), old(self).rows(), old(self).cols())
                })
            }),
            old(self).cell(old(self).layer(), hw_row(event), hw_col(event)) matches
                KeyCodeInt::Key(k) ==> (is_hw(event) ==> {
                let cur = old(self).held_at(hw_row(event), hw_col(event));
                let next = edge_next(cur, hw_value(event), k);
                &&& final(self).layer() == old(self).layer()
                &&& (next == cur ==> *final(self) == *old(self) && out@ == Seq::<
                    ReactorEvent,
                >::empty())
                &&& (next != cur ==> final(self).held_at(hw_row(event), hw_col(event)) == next
                    && (forall|r: int, c: int|
                    0 <= r < old(self).rows() && 0 <= c < old(self).cols() && !(r == hw_row(event)
                        && c == hw_col(event))
                        ==> final(self).held_at(r, c) == old(self).held_at(r, c))
                    && out@ == seq![ReactorEvent::Key(next)])
            }),
            is_hw(event) && old(self).cell(old(self).layer(), hw_row(event), hw_col(event))
                == KeyCodeInt::Unmapped ==> *final(self) == *old(self) && out@ == Seq::<
                ReactorEvent,
            >::empty(),
    {
        let (value, rindex, cindex) = match event {
            ReactorEvent::HardwareMappedBool(v, r, c) => (v, r, c),
            _ => {
                return Vec::new();
            },
        };
        let cell = self.layers[self.current_layer][rindex][cindex];
        match cell {
            KeyCodeInt::Internal(action) => {
                let old_layer = self.current_layer;
                let count = self.layers.len();
                let new_layer: usize = match action {
                    InternalEvent::LayerNext => {
                        if old_layer + 1 < count {
                            old_layer + 1
                        } else {
                            0
                        }
                    },
                    InternalEvent::LayerPrev => {
                        if old_layer == 0 {
                            count - 1
                        } else {
                            old_layer - 1
                        }
                    },
                    InternalEvent::LayerChange(t) => {
                        if t < count {
                            t
                        } else {
                            0
                        }
                    },
                    _ => old_layer,
                };
                self.current_layer = new_layer;
                if new_layer == old_layer {
                    return Vec::new();
                }
                let rows = self.last_state.len();
                let mut out: Vec<ReactorEvent> = Vec::new();
                let mut r: usize = 0;
                while r < rows
                    invariant
                        old(self).wf(),
                        rows == old(self).rows(),
                        r <= rows,
                        self.layers == old(self).layers,
                        self.hold_cycles == old(self).hold_cycles,
                        self.last_state@.len() == rows,
                        forall|i: int| 0 <= i < rows ==> self.last_state@[i]@.len() == old(self).cols(),
                        self.layer() == layer_after(
                            action,
                            old(self).layer(),
                            old(self).layer_count(),
                        ),
                        0 <= self.layer() < old(self).layer_count(),
                        forall|i: int, j: int|
                            0 <= i < r && 0 <= j < old(self).cols() ==> self.held_at(i, j)
                                == release_cell(old(self).held_at(i, j)),
                        forall|i: int, j: int|
                            r <= i < rows && 0 <= j < old(self).cols() ==> self.held_at(i, j)
                                == old(self).held_at(i, j),
                        out@ == release_events(old(self).held(), r as int, old(self).cols()),
                    decreases rows - r,
                {
                    let cols = self.last_state[r].len();
                    let mut c: usize = 0;
                    while c < cols
                        invariant
                            old(self).wf(),
                            rows == old(self).rows(),
                            cols == old(self).cols(),
                            r < rows,
                            c <= cols,
                            self.layers == old(self).layers,
                            self.hold_cycles == old(self).hold_cycles,
                            self.last_state@.len() == rows,
                            forall|i: int|
                                0 <= i < rows ==> self.last_state@[i]@.len() == old(self).cols(),
                            self.layer() == layer_after(
                                action,
                                old(self).layer(),
                                old(self).layer_count(),
                            ),
                            0 <= self.layer() < old(self).layer_count(),
                            forall|i: int, j: int|
                                0 <= i < r && 0 <= j < cols ==> self.held_at(i, j) == release_cell(
                                    old(self).held_at(i, j),
                                ),
                            forall|j: int|
                                0 <= j < c ==> self.held_at(r as int, j) == release_cell(
                                    old(self).held_at(r as int, j),
                                ),
                            forall|j: int|
                                c <= j < cols ==> self.held_at(r as int, j) == old(self).held_at(
                                    r as int,
                                    j,
                                ),
                            forall|i: int, j: int|
                                r < i < rows && 0 <= j < cols
                                    ==> self.held_at(i, j) == old(self).held_at(i, j),
                            out@ == release_events(old(self).held(), r as int, cols as int)
                                + release_events_row(old(self).held()[r as int]@, c as int),
                        decreases cols - c,
                    {
                        let held = self.last_state[r][c];
                        let ghost pre = *self;
                        proof {
                            assert(held == old(self).held_at(r as int, c as int));
                            assert(old(self).held()[r as int]@[c as int] == held);
                        }
                        if let KeyEvent::Pressed(key) = held {
                            self.last_state[r][c] = KeyEvent::Released(key);
                            out.push(ReactorEvent::Key(KeyEvent::Released(key)));
                        }
                        proof {
                            assert(out@ =~= release_events(
                                old(self).held(),
                                r as int,
                                cols as int,
                            ) + release_events_row(old(self).held()[r as int]@, c as int + 1));
                            assert forall|i: int, j: int|
                                0 <= i < rows && 0 <= j < cols && !(i == r as int && j == c as int)
                                    implies self.held_at(i, j) == pre.held_at(i, j) by {}
                        }
                        c += 1;
                    }
                    r += 1;
                }
                out
            },
            KeyCodeInt::Key(k) => {
                let cur = self.last_state[rindex][cindex];
                let next: KeyEvent = match cur {
                    KeyEvent::Released(_) => {
                        if value {
                            KeyEvent::Pressed(k)
                        } else {
                            cur
                        }
                    },
                    KeyEvent::Pressed(_) => {
                        if !value {
                            KeyEvent::Released(k)
                        } else {
                            cur
                        }
                    },
                };
                if next != cur {
                    self.last_state[rindex][cindex] = next;
                    let mut out: Vec<ReactorEvent> = Vec::new();
                    out.push(ReactorEvent::Key(next));
                    out
                } else {
                    Vec::new()
                }
            },
            KeyCodeInt::Unmapped => Vec::new(),
        }
    }
}

impl Default for Keymap {
    /// A placeholder resolver: one layer of one empty row, nothing held.
    fn default() -> (r: Keymap)
        ensures
            r.wf(),
            r.layer() == 0,
            r.layer_count() == 1,
            r.rows() == 1,
            r.cols() == 0,
            r.hold_cycles == 0,
    {
        let mut layer: Vec<Vec<KeyCodeInt>> = Vec::new();
        layer.push(Vec::new());
        let mut layers: Vec<Vec<Vec<KeyCodeInt>>> = Vec::new();
        layers.push(layer);
        let mut last_state: Vec<Vec<KeyEvent>> = Vec::new();
        last_state.push(Vec::new());
        Keymap { layers, hold_cycles: 0, current_layer: 0, last_state }
    }
}

/// Layer-switch safety, completeness half: every key held pressed anywhere
/// in the grid appears as a `Released` event in the forced-release cascade.
pub proof fn lemma_layer_switch_releases_all(
    held: Seq<Vec<KeyEvent>>,
    rows: int,
    cols: int,
    r: int,
    c: int,
    k: KeyCode,
)
    requires
        0 <= r < rows,
        0 <= c < cols,
        rows <= held.len(),
        forall|i: int| 0 <= i < rows ==> held[i]@.len() >= cols,
        held[r]@[c] == KeyEvent::Pressed(k),
    ensures
        release_events(held, rows, cols).contains(ReactorEvent::Key(KeyEvent::Released(k))),
    decreases rows,
{
    if r == rows - 1 {
        lemma_release_events_row_contains(held[rows - 1]@, cols, c, k);
        let row_events = release_events_row(held[rows - 1]@, cols);
        let i = choose|i: int|
            0 <= i < row_events.len() && row_events[i] == ReactorEvent::Key(KeyEvent::Released(k));
        assert(release_events(held, rows, cols)[release_events(held, rows - 1, cols).len() as int
            + i] == ReactorEvent::Key(KeyEvent::Released(k)));
    } else {
        lemma_layer_switch_releases_all(held, rows - 1, cols, r, c, k);
        let prefix = release_events(held, rows - 1, cols);
        let i = choose|i: int|
            0 <= i < prefix.len() && prefix[i] == ReactorEvent::Key(KeyEvent::Released(k));
        assert(release_events(held, rows, cols)[i] == ReactorEvent::Key(KeyEvent::Released(k)));
    }
}

/// One row of the completeness argument: a pressed cell contributes its
/// `Released` event to the row's cascade.
proof fn lemma_release_events_row_contains(row: Seq<KeyEvent>, cols: int, c: int, k: KeyCode)
    requires
        0 <= c < cols,
        cols <= row.len(),
        row[c] == KeyEvent::Pressed(k),
    ensures
        release_events_row(row, cols).contains(ReactorEvent::Key(KeyEvent::Released(k))),
    decreases cols,
{
    if c == cols - 1 {
        assert(release_events_row(row, cols)[release_events_row(row, cols - 1).len() as int]
            == ReactorEvent::Key(KeyEvent::Released(k)));
    } else {
        lemma_release_events_row_contains(row, cols - 1, c, k);
        let prefix = release_events_row(row, cols - 1);
        let i = choose|i: int|
            0 <= i < prefix.len() && prefix[i] == ReactorEvent::Key(KeyEvent::Released(k));
        assert(release_events_row(row, cols)[i] == ReactorEvent::Key(KeyEvent::Released(k)));
    }
}

/// Layer-switch safety, soundness half: the forced-release cascade emits
/// only `Released` events, so no press from the new layer can precede the
/// releases of the old one in the output stream.
pub proof fn lemma_layer_switch_emits_no_press(held: Seq<Vec<KeyEvent>>, rows: int, cols: int)
    ensures
        forall|i: int|
            0 <= i < release_events(held, rows, cols).len()
                ==> (#[trigger] release_events(held, rows, cols)[i]) matches ReactorEvent::Key(
                KeyEvent::Released(_),
            ),
    decreases rows,
{
    if rows > 0 {
        lemma_layer_switch_emits_no_press(held, rows - 1, cols);
        lemma_release_events_row_only_releases(held[rows - 1]@, cols);
    }
}

/// One row of the soundness argument.
proof fn lemma_release_events_row_only_releases(row: Seq<KeyEvent>, cols: int)
    ensures
        forall|i: int|
            0 <= i < release_events_row(row, cols).len()
                ==> (#[trigger] release_events_row(row, cols)[i]) matches ReactorEvent::Key(
                KeyEvent::Released(_),
            ),
    decreases cols,
{
    if cols > 0 {
        lemma_release_events_row_only_releases(row, cols - 1);
    }
}

} // verus!
