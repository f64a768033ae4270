//! The report aggregator: a pure reducer from logical key transitions to
//! composite keyboard reports.
//!
//! It keeps the currently held modifiers as a bitfield and up to six held
//! non-modifier keys in first-fit slots; a seventh simultaneous key is
//! silently dropped (ghosting). Every key event produces a fresh report
//! event, even when the held set did not change.
use vstd::prelude::*;

use crate::keycode::KeyCode;
use crate::reactor_event::KeyEvent;
use crate::reactor_event::KeyModifiers;
use crate::reactor_event::ReactorEvent;

verus! {

/// `m` with the flag of modifier key `k` set to `on`; other keys leave the
/// bitfield alone.
pub open spec fn set_modifier(m: KeyModifiers, k: KeyCode, on: bool) -> KeyModifiers {
    match k {
        KeyCode::LCtrl => KeyModifiers { lctrl: on, ..m },
        KeyCode::LShift => KeyModifiers { lshift: on, ..m },
        KeyCode::LAlt => KeyModifiers { lalt: on, ..m },
        KeyCode::LGui => KeyModifiers { lgui: on, ..m },
        KeyCode::RCtrl => KeyModifiers { rctrl: on, ..m },
        KeyCode::RShift => KeyModifiers { rshift: on, ..m },
        KeyCode::RAlt => KeyModifiers { ralt: on, ..m },
        KeyCode::RGui => KeyModifiers { rgui: on, ..m },
        _ => m,
    }
}

/// The first index at or after `i` where `keys` holds `k`, or -1 if there
/// is none.
pub open spec fn first_at(keys: Seq<KeyCode>, k: KeyCode, i: int) -> int
    decreases keys.len() - i,
{
    if i < 0 || i >= keys.len() {
        -1
    } else if keys[i] == k {
        i
    } else {
        first_at(keys, k, i + 1)
    }
}

/// The first slot holding `k`, or -1.
pub open spec fn slot_of(keys: Seq<KeyCode>, k: KeyCode) -> int {
    first_at(keys, k, 0)
}

/// Whether some slot holds `k`.
pub open spec fn holds(keys: Seq<KeyCode>, k: KeyCode) -> bool {
    slot_of(keys, k) >= 0
}

/// One step of the reducer. A pressed modifier sets its flag; a pressed
/// ordinary key takes the first free slot unless it is already held or no
/// slot is free (ghosting: dropped). A released modifier clears its flag; a
/// released ordinary key clears its slot.
pub open spec fn agg_step(m: KeyModifiers, keys: Seq<KeyCode>, e: KeyEvent) -> (
    KeyModifiers,
    Seq<KeyCode>,
) {
    match e {
        KeyEvent::Pressed(k) => {
            if k.is_modifier_spec() {
                (set_modifier(m, k, true), keys)
            } else if holds(keys, k) {
                (m, keys)
            } else if holds(keys, KeyCode::NoKey) {
                (m, keys.update(slot_of(keys, KeyCode::NoKey), k))
            } else {
                (m, keys)
            }
        },
        KeyEvent::Released(k) => {
            if k.is_modifier_spec() {
                (set_modifier(m, k, false), keys)
            } else if holds(keys, k) {
                (m, keys.update(slot_of(keys, k), KeyCode::NoKey))
            } else {
                (m, keys)
            }
        },
    }
}

/// The reducer folded over a whole sequence of key events, oldest first.
/// The aggregator's state, and with it the final report, is this pure
/// function of the event sequence alone.
pub open spec fn agg_run(m: KeyModifiers, keys: Seq<KeyCode>, s: Seq<KeyEvent>) -> (
    KeyModifiers,
    Seq<KeyCode>,
)
    decreases s.len(),
{
    if s.len() == 0 {
        (m, keys)
    } else {
        let p = agg_run(m, keys, s.drop_last());
        agg_step(p.0, p.1, s.last())
    }
}

/// Whether `e` is the report event of modifier state `m` and slot state
/// `keys`.
pub open spec fn is_report_of(e: ReactorEvent, m: KeyModifiers, keys: Seq<KeyCode>) -> bool {
    e matches ReactorEvent::KeyboardReport { modifier, keycodes } && modifier == m && keycodes@
        == keys
}

/// The aggregator middleware: current modifier bitfield and held key slots.
pub struct KeyboardReportMid {
    /// The held modifiers.
    pub modifiers: KeyModifiers,
    /// The six report slots; a free slot holds `NoKey`.
    pub keys: [KeyCode; 6],
}

impl Default for KeyboardReportMid {
    /// Nothing held: no modifier set, all six slots free.
    fn default() -> (r: Self)
        ensures
            r.modifiers == KeyModifiers::none_set(),
            r.keys@ =~= Seq::new(6, |i: int| KeyCode::NoKey),
    {
        KeyboardReportMid {
            modifiers: KeyModifiers::default(),
            keys: [
                KeyCode::NoKey,
                KeyCode::NoKey,
                KeyCode::NoKey,
                KeyCode::NoKey,
                KeyCode::NoKey,
                KeyCode::NoKey,
            ],
        }
    }
}

impl KeyboardReportMid {
    /// The composite report event of the current state.
    pub fn into_event(&self) -> (r: ReactorEvent)
        ensures
            r == (ReactorEvent::KeyboardReport { modifier: self.modifiers, keycodes: self.keys }),
            is_report_of(r, self.modifiers, self.keys@),
    {
        ReactorEvent::KeyboardReport { modifier: self.modifiers, keycodes: self.keys }
    }

    /// The first slot holding `k`, if any.
    fn find_slot(&self, k: KeyCode) -> (r: Option<usize>)
        ensures
            r matches Some(i) ==> holds(self.keys@, k) && i == slot_of(self.keys@, k) && i < 6,
            r is None ==> !holds(self.keys@, k),
    {
        let mut i: usize = 0;
        while i < 6
            invariant
                i <= 6,
                first_at(self.keys@, k, 0) == first_at(self.keys@, k, i as int),
            decreases 6 - i,
        {
            if self.keys[i] == k {
                return Some(i);
            }
            i += 1;
        }
        None
    }

    /// Feeds one bus event through the reducer. A key event steps the held
    /// state and always yields a fresh report event; everything else is
    /// ignored and yields nothing.
    pub fn process(&mut self, value: ReactorEvent) -> (out: Option<ReactorEvent>)
        ensures
            value matches ReactorEvent::Key(e) ==> {
                &&& final(self).modifiers == agg_step(old(self).modifiers, old(self).keys@, e).0
                &&& final(self).keys@ == agg_step(old(self).modifiers, old(self).keys@, e).1
                &&& out == Some(
                    ReactorEvent::KeyboardReport {
                        modifier: final(self).modifiers,
                        keycodes: final(self).keys,
                    },
                )
            },
            !(value matches ReactorEvent::Key(_)) ==> *final(self) == *old(self) && out == None::<
                ReactorEvent,
            >,
    {
        let code = match value {
            ReactorEvent::Key(code) => code,
            _ => {
                return None;
            },
        };
        match code {
            KeyEvent::Pressed(key) => {
                if key.is_modifier() {
                    self.set_modifier_flag(key, true);
                } else {
                    match self.find_slot(key) {
                        Some(_) => {},
                        None => {
                            if let Some(pos) = self.find_slot(KeyCode::NoKey) {
                                self.keys[pos] = key;
                            }
                        },
                    }
                }
            },
            KeyEvent::Released(key) => {
                if key.is_modifier() {
                    self.set_modifier_flag(key, false);
                } else {
                    if let Some(pos) = self.find_slot(key) {
                        self.keys[pos] = KeyCode::NoKey;
                    }
                }
            },
        }
        Some(self.into_event())
    }

    /// Sets or clears the bitfield flag of modifier key `key`.
    fn set_modifier_flag(&mut self, key: KeyCode, on: bool)
        ensures
            final(self).modifiers == set_modifier(old(self).modifiers, key, on),
            final(self).keys == old(self).keys,
    {
        match key {
            KeyCode::LCtrl => self.modifiers.lctrl = on,
            KeyCode::LShift => self.modifiers.lshift = on,
            KeyCode::LAlt => self.modifiers.lalt = on,
            KeyCode::LGui => self.modifiers.lgui = on,
            KeyCode::RCtrl => self.modifiers.rctrl = on,
            KeyCode::RShift => self.modifiers.rshift = on,
            KeyCode::RAlt => self.modifiers.ralt = on,
            KeyCode::RGui => self.modifiers.rgui = on,
            _ => {},
        }
    }

    /// Feeds a whole sequence of key events through the reducer, oldest
    /// first, and returns the report emitted after each one. The final state
    /// and every intermediate report are pure functions of the sequence:
    /// two aggregators starting alike and fed alike end alike.
    pub fn process_all(&mut self, events: &Vec<KeyEvent>) -> (out: Vec<ReactorEvent>)
        ensures
            final(self).modifiers == agg_run(old(self).modifiers, old(self).keys@, events@).0,
            final(self).keys@ == agg_run(old(self).modifiers, old(self).keys@, events@).1,
            out@.len() == events@.len(),
            forall|i: int|
                0 <= i < events@.len() ==> is_report_of(
                    #[trigger] out@[i],
                    agg_run(old(self).modifiers, old(self).keys@, events@.subrange(0, i + 1)).0,
                    agg_run(old(self).modifiers, old(self).keys@, events@.subrange(0, i + 1)).1,
                ),
    {
        let ghost m0 = self.modifiers;
        let ghost k0 = self.keys@;
        let mut out: Vec<ReactorEvent> = Vec::new();
        let n = events.len();
        let mut i: usize = 0;
        while i < n
            invariant
                n == events@.len(),
                i <= n,
                out@.len() == i,
                self.modifiers == agg_run(m0, k0, events@.subrange(0, i as int)).0,
                self.keys@ == agg_run(m0, k0, events@.subrange(0, i as int)).1,
                forall|j: int|
                    0 <= j < i ==> is_report_of(
                        #[trigger] out@[j],
                        agg_run(m0, k0, events@.subrange(0, j + 1)).0,
                        agg_run(m0, k0, events@.subrange(0, j + 1)).1,
                    ),
            decreases n - i,
        {
            let ev = events[i];
            proof {
                assert(events@.subrange(0, i as int + 1).drop_last() =~= events@.subrange(
                    0,
                    i as int,
                ));
                assert(events@.subrange(0, i as int + 1).last() == ev);
            }
            let report = self.process(ReactorEvent::Key(ev));
            match report {
                Some(r) => out.push(r),
                None => {
                    proof {
                        assert(false);
                    }
                },
            }
            i += 1;
        }
        proof {
            assert(events@.subrange(0, n as int) =~= events@);
        }
        out
    }
}

/// The first free slot among none: a search over a range that holds no
/// match comes back empty.
proof fn lemma_first_at_none(keys: Seq<KeyCode>, k: KeyCode, i: int)
    requires
        0 <= i <= keys.len(),
        forall|j: int| i <= j < keys.len() ==> keys[j] != k,
    ensures
        first_at(keys, k, i) == -1,
    decreases keys.len() - i,
{
    if i < keys.len() {
        lemma_first_at_none(keys, k, i + 1);
    }
}

/// A search whose first match sits at `t` finds exactly `t`.
proof fn lemma_first_at_found(keys: Seq<KeyCode>, k: KeyCode, i: int, t: int)
    requires
        0 <= i <= t < keys.len(),
        keys[t] == k,
        forall|j: int| i <= j < t ==> keys[j] != k,
    ensures
        first_at(keys, k, i) == t,
    decreases t - i,
{
    if i < t {
        lemma_first_at_found(keys, k, i + 1, t);
    }
}

/// The presses of `ks`, in order.
pub open spec fn presses(ks: Seq<KeyCode>) -> Seq<KeyEvent>
    decreases ks.len(),
{
    if ks.len() == 0 {
        Seq::empty()
    } else {
        presses(ks.drop_last()).push(KeyEvent::Pressed(ks.last()))
    }
}

/// The slot state with the first `n` keys of `ks` filled in order and the
/// rest of the six slots free.
pub open spec fn filled_slots(ks: Seq<KeyCode>, n: int) -> Seq<KeyCode> {
    Seq::new(6, |i: int| if i < n { ks[i] } else { KeyCode::NoKey })
}

/// Induction carrier for the ghosting bound: pressing `n <= 6` distinct
/// ordinary keys into an empty aggregator fills the first `n` slots in
/// press order and touches no modifier.
proof fn lemma_fill_prefix(m0: KeyModifiers, ks: Seq<KeyCode>, n: int)
    requires
        0 <= n <= 6,
        n <= ks.len(),
        forall|i: int, j: int| 0 <= i < j < n ==> ks[i] != ks[j],
        forall|i: int| 0 <= i < n ==> !(#[trigger] ks[i]).is_modifier_spec(),
        forall|i: int| 0 <= i < n ==> ks[i] != KeyCode::NoKey,
    ensures
        agg_run(m0, filled_slots(ks, 0), presses(ks.subrange(0, n))).0 == m0,
        agg_run(m0, filled_slots(ks, 0), presses(ks.subrange(0, n))).1 == filled_slots(ks, n),
    decreases n,
{
    let empty = filled_slots(ks, 0);
    if n == 0 {
        assert(ks.subrange(0, 0) =~= Seq::<KeyCode>::empty());
        assert(presses(ks.subrange(0, 0)) =~= Seq::<KeyEvent>::empty());
    } else {
        lemma_fill_prefix(m0, ks, n - 1);
        let prefix = ks.subrange(0, n);
        assert(prefix.drop_last() =~= ks.subrange(0, n - 1));
        assert(presses(prefix).drop_last() =~= presses(ks.subrange(0, n - 1)));
        assert(presses(prefix).last() == KeyEvent::Pressed(ks[n - 1]));
        let before = filled_slots(ks, n - 1);
        let k = ks[n - 1];
        lemma_first_at_none(before, k, 0);
        assert(!holds(before, k));
        lemma_first_at_found(before, KeyCode::NoKey, 0, n - 1);
        assert(slot_of(before, KeyCode::NoKey) == n - 1);
        assert(before.update(n - 1, k) =~= filled_slots(ks, n));
    }
}

/// The ghosting bound: pressing seven distinct ordinary keys in sequence
/// into an empty aggregator leaves exactly the first six in the report
/// slots, in press order; the seventh never appears, and the modifier
/// bitfield is untouched.
pub proof fn lemma_ghosting_bound(m0: KeyModifiers, ks: Seq<KeyCode>)
    requires
        ks.len() == 7,
        forall|i: int, j: int| 0 <= i < j < 7 ==> ks[i] != ks[j],
        forall|i: int| 0 <= i < 7 ==> !(#[trigger] ks[i]).is_modifier_spec(),
        forall|i: int| 0 <= i < 7 ==> ks[i] != KeyCode::NoKey,
    ensures
        agg_run(m0, filled_slots(ks, 0), presses(ks)).0 == m0,
        agg_run(m0, filled_slots(ks, 0), presses(ks)).1 == filled_slots(ks, 6),
        !holds(agg_run(m0, filled_slots(ks, 0), presses(ks)).1, ks[6]),
{
    let empty = filled_slots(ks, 0);
    lemma_fill_prefix(m0, ks, 6);
    assert(presses(ks).drop_last() =~= presses(ks.drop_last()));
    assert(ks.drop_last() =~= ks.subrange(0, 6));
    assert(presses(ks).last() == KeyEvent::Pressed(ks[6]));
    let before = filled_slots(ks, 6);
    lemma_first_at_none(before, ks[6], 0);
    assert(!holds(before, ks[6]));
    lemma_first_at_none(before, KeyCode::NoKey, 0);
    assert(!holds(before, KeyCode::NoKey));
    assert(agg_run(m0, empty, presses(ks)).1 == before);
}

} // verus!
