//! Key-input tracking: the set of currently held keys and the one-tick-lived
//! edge sets (just pressed, just released), with idempotent edge detection.

use vstd::prelude::*;

verus! {

/// A small set of key codes, backed by a duplicate-free vector.
pub struct KeySet {
    codes: Vec<u32>,
}

impl KeySet {
    /// The mathematical set of codes held.
    pub closed spec fn view(&self) -> Set<u32> {
        Set::new(|c: u32| self.codes@.contains(c))
    }

    /// No code is stored twice.
    pub closed spec fn wf(&self) -> bool {
        forall|i: int, j: int|
            0 <= i < j < self.codes@.len() ==> self.codes@[i] != self.codes@[j]
    }

    pub fn new() -> (s: KeySet)
        ensures
            s@ == Set::<u32>::empty(),
            s.wf(),
    {
        let s = KeySet { codes: Vec::new() };
        proof {
            assert(s@ =~= Set::<u32>::empty());
        }
        s
    }

    pub fn contains(&self, code: u32) -> (r: bool)
        ensures
            r == self@.contains(code),
    {
        let mut i: usize = 0;
        while i < self.codes.len()
            invariant
                i <= self.codes.len(),
                forall|j: int| 0 <= j < i ==> self.codes@[j] != code,
            decreases self.codes.len() - i,
        {
            if self.codes[i] == code {
                return true;
            }
            i = i + 1;
        }
        false
    }

    /// Insert a code; reports whether it was newly inserted.
    pub fn insert(&mut self, code: u32) -> (newly: bool)
        requires
            old(self).wf(),
        ensures
            final(self).wf(),
            final(self)@ == old(self)@.insert(code),
            newly == !old(self)@.contains(code),
    {
        if self.contains(code) {
            proof {
                assert(self@ =~= self@.insert(code));
            }
            false
        } else {
            self.codes.push(code);
            proof {
                assert forall|y: u32| final(self)@.contains(y) <==> old(self)@.insert(
                    code,
                ).contains(y) by {
                    if self.codes@.contains(y) {
                        let j = choose|j: int|
                            0 <= j < self.codes@.len() && self.codes@[j] == y;
                        if j < self.codes@.len() - 1 {
                            assert(old(self).codes@[j] == y);
                        }
                    }
                    if old(self).codes@.contains(y) {
                        let j = choose|j: int|
                            0 <= j < old(self).codes@.len() && old(self).codes@[j] == y;
                        assert(self.codes@[j] == y);
                    }
                    if y == code {
                        assert(self.codes@[self.codes@.len() - 1] == y);
                    }
                }
                assert(final(self)@ =~= old(self)@.insert(code));
            }
            true
        }
    }

    /// Remove a code; reports whether it was present.
    pub fn remove(&mut self, code: u32) -> (was: bool)
        requires
            old(self).wf(),
        ensures
            final(self).wf(),
            final(self)@ == old(self)@.remove(code),
            was == old(self)@.contains(code),
    {
        let ghost s0 = self.codes@;
        let mut i: usize = 0;
        while i < self.codes.len()
            invariant
                i <= self.codes.len(),
                self.codes@ == s0,
                s0 == old(self).codes@,
                forall|a: int, b: int| 0 <= a < b < s0.len() ==> s0[a] != s0[b],
                forall|j: int| 0 <= j < i ==> s0[j] != code,
            decreases self.codes.len() - i,
        {
            if self.codes[i] == code {
                self.codes.remove(i);
                proof {
                    self.lemma_removal_view(s0, i as int, code);
                }
                return true;
            }
            i = i + 1;
        }
        proof {
            assert(!self@.contains(code));
            assert(self@ =~= self@.remove(code));
        }
        false
    }

    /// After removing the sole occurrence of `code` at index `i`, the stored
    /// codes are exactly the old ones less `code`, still duplicate-free.
    proof fn lemma_removal_view(&self, s0: Seq<u32>, i: int, code: u32)
        requires
            0 <= i < s0.len(),
            s0[i] == code,
            forall|a: int, b: int| 0 <= a < b < s0.len() ==> s0[a] != s0[b],
            self.codes@ == s0.remove(i),
        ensures
            self.wf(),
            self@ == Set::new(|c: u32| s0.contains(c)).remove(code),
    {
        let s1 = self.codes@;
        assert forall|y: u32| s1.contains(y) implies s0.contains(y) && y != code by {
            let j = choose|j: int| 0 <= j < s1.len() && s1[j] == y;
            if j < i {
                assert(s0[j] == y);
                assert(j != i);
            } else {
                assert(s0[j + 1] == y);
                assert(j + 1 != i);
            }
        }
        assert forall|y: u32| s0.contains(y) && y != code implies s1.contains(y) by {
            let j = choose|j: int| 0 <= j < s0.len() && s0[j] == y;
            if j < i {
                assert(s1[j] == y);
            } else {
                assert(j != i);
                assert(s1[j - 1] == y);
            }
        }
        assert(self@ =~= Set::new(|c: u32| s0.contains(c)).remove(code));
        assert forall|a: int, b: int| 0 <= a < b < s1.len() implies s1[a] != s1[b] by {
            if b < i {
                assert(s1[a] == s0[a] && s1[b] == s0[b]);
            } else if a < i {
                assert(s1[a] == s0[a] && s1[b] == s0[b + 1]);
            } else {
                assert(s1[a] == s0[a + 1] && s1[b] == s0[b + 1]);
            }
        }
    }

    pub fn clear(&mut self)
        ensures
            final(self).wf(),
            final(self)@ == Set::<u32>::empty(),
    {
        self.codes.clear();
        proof {
            assert(self@ =~= Set::<u32>::empty());
        }
    }
}

/// The abstract state of the input tracker: which keys are down, and which
/// edges have been observed since the last tick boundary.
#[verifier::ext_equal]
pub ghost struct InputView {
    pub held: Set<u32>,
    pub just_pressed: Set<u32>,
    pub just_released: Set<u32>,
}

/// The tracker state before any event has been seen.
pub open spec fn input_empty() -> InputView {
    InputView {
        held: Set::empty(),
        just_pressed: Set::empty(),
        just_released: Set::empty(),
    }
}

/// One raw key event. A press of a key already held, or a release of a key
/// not held, changes nothing: edge detection is idempotent.
pub open spec fn key_step(v: InputView, code: u32, pressed: bool) -> InputView {
    if pressed {
        if v.held.contains(code) {
            v
        } else {
            InputView {
                held: v.held.insert(code),
                just_pressed: v.just_pressed.insert(code),
                just_released: v.just_released,
            }
        }
    } else {
        if v.held.contains(code) {
            InputView {
                held: v.held.remove(code),
                just_pressed: v.just_pressed,
                just_released: v.just_released.insert(code),
            }
        } else {
            v
        }
    }
}

/// The tick boundary: both edge sets are dropped, held keys stay held.
pub open spec fn edges_cleared(v: InputView) -> InputView {
    InputView {
        held: v.held,
        just_pressed: Set::empty(),
        just_released: Set::empty(),
    }
}

/// Tracks held keys and the press/release edges seen this tick.
pub struct InputTracker {
    held: KeySet,
    just_pressed: KeySet,
    just_released: KeySet,
}

impl InputTracker {
    pub closed spec fn view(&self) -> InputView {
        InputView {
            held: self.held@,
            just_pressed: self.just_pressed@,
            just_released: self.just_released@,
        }
    }

    pub closed spec fn wf(&self) -> bool {
        self.held.wf() && self.just_pressed.wf() && self.just_released.wf()
    }

    pub fn new() -> (t: InputTracker)
        ensures
            t@ == input_empty(),
            t.wf(),
    {
        InputTracker { held: KeySet::new(), just_pressed: KeySet::new(), just_released: KeySet::new() }
    }

    /// Feed one raw key event through the edge detector.
    pub fn on_key_event(&mut self, code: u32, pressed: bool)
        requires
            old(self).wf(),
        ensures
            final(self).wf(),
            final(self)@ == key_step(old(self)@, code, pressed),
    {
        if pressed {
            if self.held.insert(code) {
                self.just_pressed.insert(code);
            }
        } else {
            if self.held.remove(code) {
                self.just_released.insert(code);
            }
        }
    }

    /// Drop both edge sets at the tick boundary.
    pub fn clear_edges(&mut self)
        requires
            old(self).wf(),
        ensures
            final(self).wf(),
            final(self)@ == edges_cleared(old(self)@),
    {
        self.just_pressed.clear();
        self.just_released.clear();
    }

    /// Drop everything, for teardown.
    pub fn reset(&mut self)
        ensures
            final(self).wf(),
            final(self)@ == input_empty(),
    {
        self.held.clear();
        self.just_pressed.clear();
        self.just_released.clear();
    }

    pub fn is_held(&self, code: u32) -> (r: bool)
        ensures
            r == self@.held.contains(code),
    {
        self.held.contains(code)
    }

    pub fn is_just_pressed(&self, code: u32) -> (r: bool)
        ensures
            r == self@.just_pressed.contains(code),
    {
        self.just_pressed.contains(code)
    }

    pub fn is_just_released(&self, code: u32) -> (r: bool)
        ensures
            r == self@.just_released.contains(code),
    {
        self.just_released.contains(code)
    }
}

/// Apply a sequence of raw key events, oldest first: the last element of
/// `evs` is the event applied last.
pub open spec fn apply_events(v: InputView, evs: Seq<(u32, bool)>) -> InputView
    decreases evs.len(),
{
    if evs.len() == 0 {
        v
    } else {
        key_step(apply_events(v, evs.drop_last()), evs.last().0, evs.last().1)
    }
}

/// Whether the most recent event for key `k` in `evs` exists and is a press.
pub open spec fn latest_is_press(evs: Seq<(u32, bool)>, k: u32) -> bool
    decreases evs.len(),
{
    if evs.len() == 0 {
        false
    } else if evs.last().0 == k {
        evs.last().1
    } else {
        latest_is_press(evs.drop_last(), k)
    }
}

/// A key is held after a sequence of events exactly when the most recent
/// event for that key was a press. Holds from any state in which the key
/// starts out released, in particular from the empty tracker.
pub proof fn lemma_held_matches_latest_event(v: InputView, evs: Seq<(u32, bool)>, k: u32)
    requires
        !v.held.contains(k),
    ensures
        apply_events(v, evs).held.contains(k) == latest_is_press(evs, k),
    decreases evs.len(),
{
    if evs.len() > 0 {
        if evs.last().0 != k {
            lemma_held_matches_latest_event(v, evs.drop_last(), k);
        }
    }
}

proof fn lemma_no_event_no_edge(v: InputView, evs: Seq<(u32, bool)>, k: u32)
    requires
        !v.just_pressed.contains(k),
        !v.just_released.contains(k),
        forall|i: int| 0 <= i < evs.len() ==> (#[trigger] evs[i]).0 != k,
    ensures
        !apply_events(v, evs).just_pressed.contains(k),
        !apply_events(v, evs).just_released.contains(k),
    decreases evs.len(),
{
    if evs.len() > 0 {
        assert(forall|i: int|
            0 <= i < evs.drop_last().len() ==> (#[trigger] evs.drop_last()[i]).0 != k);
        lemma_no_event_no_edge(v, evs.drop_last(), k);
        assert(evs.last().0 != k);
    }
}

/// Edge sets are one-tick-lived: once a tick boundary has cleared them, a
/// key appears in neither edge set on any later tick unless a new event for
/// that key arrives.
pub proof fn lemma_edges_empty_after_tick(v: InputView, evs: Seq<(u32, bool)>, k: u32)
    requires
        forall|i: int| 0 <= i < evs.len() ==> (#[trigger] evs[i]).0 != k,
    ensures
        !apply_events(edges_cleared(v), evs).just_pressed.contains(k),
        !apply_events(edges_cleared(v), evs).just_released.contains(k),
{
    lemma_no_event_no_edge(edges_cleared(v), evs, k);
}

/// A press of a key that is already held changes nothing: in particular it
/// cannot enter `just_pressed` a second time.
pub proof fn lemma_redundant_press_ignored(v: InputView, k: u32)
    requires
        v.held.contains(k),
    ensures
        key_step(v, k, true) == v,
{
}

/// A release of a key that is not held changes nothing: in particular it
/// never populates `just_released`.
pub proof fn lemma_redundant_release_ignored(v: InputView, k: u32)
    requires
        !v.held.contains(k),
    ensures
        key_step(v, k, false) == v,
{
}

/// Pressing a key twice in a row leaves exactly the state of the single
/// original press: the edge is recorded once.
pub proof fn lemma_double_press_single_edge(v: InputView, k: u32)
    ensures
        key_step(key_step(v, k, true), k, true) == key_step(v, k, true),
{
}

} // verus!
