use vstd::prelude::*;

use crate::config::types::{ButtonMappingSet, TargetEvent};
use crate::engine::key_mapper::{keycode_slot, ConfigKeyMapper};
use crate::hid::keycode::KeyCode;
use crate::hid::report::KeyboardReport;

verus! {

/// The keys of `keys` that are not in `prev`, each once, in order of first
/// appearance.
pub open spec fn fresh_keys(prev: Set<KeyCode>, keys: Seq<KeyCode>) -> Seq<KeyCode>
    decreases keys.len(),
{
    if keys.len() == 0 {
        Seq::empty()
    } else {
        let rest = fresh_keys(prev, keys.drop_last());
        let k = keys.last();
        if prev.contains(k) || keys.drop_last().contains(k) {
            rest
        } else {
            rest.push(k)
        }
    }
}

/// The mapped events of a sequence of keys (keys without a mapping are
/// skipped).
pub open spec fn key_events(keys: Seq<KeyCode>, m: ButtonMappingSet) -> Seq<TargetEvent>
    decreases keys.len(),
{
    if keys.len() == 0 {
        Seq::empty()
    } else {
        let rest = key_events(keys.drop_last(), m);
        match keycode_slot(keys.last(), m) {
            Some(e) => rest.push(e),
            None => rest,
        }
    }
}

/// The events a keyboard report fires after the previous one: the mapped
/// events of the keys that were not held before.
pub open spec fn keyboard_events(prev: Set<KeyCode>, keys: Seq<KeyCode>, m: ButtonMappingSet) -> Seq<
    TargetEvent,
> {
    key_events(fresh_keys(prev, keys), m)
}

/// Tracks which hub keys are held and turns newly pressed ones into target
/// events.
pub struct KeyboardHandler {
    pressed: Vec<KeyCode>,
}

impl View for KeyboardHandler {
    type V = Set<KeyCode>;

    /// The keys held in the previous report.
    closed spec fn view(&self) -> Set<KeyCode> {
        self.pressed@.to_set()
    }
}

fn holds(keys: &Vec<KeyCode>, n: usize, k: KeyCode) -> (r: bool)
    requires
        n <= keys@.len(),
    ensures
        r == keys@.take(n as int).contains(k),
{
    let mut i: usize = 0;
    while i < n
        invariant
            n <= keys@.len(),
            i <= n,
            forall|j: int| 0 <= j < i ==> keys@[j] != k,
        decreases n - i,
    {
        if keys[i].0 == k.0 {
            assert(keys@.take(n as int)[i as int] == k);
            return true;
        }
        i = i + 1;
    }
    assert forall|j: int| 0 <= j < n implies keys@.take(n as int)[j] != k by {
        assert(keys@.take(n as int)[j] == keys@[j]);
    }
    false
}

impl KeyboardHandler {
    /// A handler with no key held.
    pub fn new() -> (r: Self)
        ensures
            r@ == Set::<KeyCode>::empty(),
    {
        Self { pressed: Vec::new() }
    }

    /// The events to fire for this report: the mapped events of keys that
    /// were not held before, each once, in report order. The report's keys
    /// become the held ones.
    pub fn handle(&mut self, report: &KeyboardReport, mapping: &ButtonMappingSet) -> (r: Vec<
        TargetEvent,
    >)
        ensures
            r@ == keyboard_events(old(self)@, report.keycodes@, *mapping),
            final(self)@ == report.keycodes@.to_set(),
    {
        let keys = &report.keycodes;
        let mut events: Vec<TargetEvent> = Vec::new();
        let mut now: Vec<KeyCode> = Vec::new();
        let mut i: usize = 0;
        while i < keys.len()
            invariant
                i <= keys@.len(),
                now@ == keys@.take(i as int),
                events@ == keyboard_events(self@, keys@.take(i as int), *mapping),
            decreases keys@.len() - i,
        {
            let kc = keys[i];
            let ghost pre = keys@.take(i as int);
            assert(keys@.take(i + 1).drop_last() == pre);
            assert(keys@.take(i + 1).last() == kc);
            let held_before = holds(&self.pressed, self.pressed.len(), kc);
            assert(self.pressed@.take(self.pressed@.len() as int) == self.pressed@);
            let seen = holds(&now, i, kc);
            assert(now@.take(i as int) == pre);
            proof {
                assert(self@.contains(kc) == self.pressed@.contains(kc));
            }
            let ghost before = events@;
            if !held_before && !seen {
                assert(fresh_keys(self@, keys@.take(i + 1)) == fresh_keys(self@, pre).push(kc));
                let ghost fr = fresh_keys(self@, pre);
                assert(fr.push(kc).drop_last() == fr);
                assert(fr.push(kc).last() == kc);
                if let Some(event) = ConfigKeyMapper::map_keycode(kc, mapping) {
                    events.push(event.duplicate());
                }
                assert(events@ == key_events(fresh_keys(self@, pre).push(kc), *mapping));
            } else {
                assert(fresh_keys(self@, keys@.take(i + 1)) == fresh_keys(self@, pre));
            }
            now.push(kc);
            i = i + 1;
        }
        assert(keys@.take(keys@.len() as int) == keys@);
        self.pressed = now;
        events
    }
}

proof fn lemma_fresh_keys_of_held(prev: Set<KeyCode>, keys: Seq<KeyCode>)
    requires
        forall|k: KeyCode| keys.contains(k) ==> prev.contains(k),
    ensures
        fresh_keys(prev, keys) == Seq::<KeyCode>::empty(),
    decreases keys.len(),
{
    if keys.len() > 0 {
        assert forall|k: KeyCode| keys.drop_last().contains(k) implies prev.contains(k) by {
            let j = choose|j: int| 0 <= j < keys.drop_last().len() && keys.drop_last()[j] == k;
            assert(keys[j] == k);
        }
        lemma_fresh_keys_of_held(prev, keys.drop_last());
        assert(keys.contains(keys.last())) by {
            assert(keys[keys.len() - 1] == keys.last());
        }
    }
}

/// The same keyboard report seen twice fires nothing the second time: a
/// held button is one press.
pub proof fn lemma_keyboard_repeat_fires_nothing(keys: Seq<KeyCode>, m: ButtonMappingSet)
    ensures
        keyboard_events(keys.to_set(), keys, m) == Seq::<TargetEvent>::empty(),
{
    lemma_fresh_keys_of_held(keys.to_set(), keys);
}


/// The keys that fire are exactly the keys of the report that were not
/// held before, each once: a newly pressed key fires one event (when it is
/// mapped), and held or released keys fire none.
pub proof fn lemma_fresh_keys_exact(prev: Set<KeyCode>, keys: Seq<KeyCode>)
    ensures
        fresh_keys(prev, keys).no_duplicates(),
        forall|k: KeyCode|
            #[trigger] fresh_keys(prev, keys).contains(k) <==> keys.contains(k) && !prev.contains(k),
    decreases keys.len(),
{
    if keys.len() > 0 {
        let init = keys.drop_last();
        let k = keys.last();
        let rest = fresh_keys(prev, init);
        lemma_fresh_keys_exact(prev, init);
        assert forall|x: KeyCode| keys.contains(x) <==> init.contains(x) || x == k by {
            if keys.contains(x) {
                let j = choose|j: int| 0 <= j < keys.len() && keys[j] == x;
                if j < keys.len() - 1 {
                    assert(init[j] == x);
                }
            }
            if init.contains(x) {
                let j = choose|j: int| 0 <= j < init.len() && init[j] == x;
                assert(keys[j] == x);
            }
            if x == k {
                assert(keys[keys.len() - 1] == x);
            }
        }
        if !(prev.contains(k) || init.contains(k)) {
            let r = rest.push(k);
            assert(!rest.contains(k));
            assert forall|i: int, j: int| 0 <= i < r.len() && 0 <= j < r.len() && i != j implies r[i]
                != r[j] by {
                if i < rest.len() && j < rest.len() {
                } else if i == rest.len() {
                    assert(r[j] == rest[j]);
                    assert(rest.contains(rest[j]));
                } else {
                    assert(r[i] == rest[i]);
                    assert(rest.contains(rest[i]));
                }
            }
            assert forall|x: KeyCode| #[trigger] r.contains(x) <==> rest.contains(x) || x == k by {
                if r.contains(x) {
                    let j = choose|j: int| 0 <= j < r.len() && r[j] == x;
                    if j < rest.len() {
                        assert(rest[j] == x);
                    }
                }
                if rest.contains(x) {
                    let j = choose|j: int| 0 <= j < rest.len() && rest[j] == x;
                    assert(r[j] == x);
                }
                if x == k {
                    assert(r[rest.len() as int] == x);
                }
            }
        }
    }
}
} // verus!
