//! Process input state: the set of keys currently held, plus the keys newly
//! pressed and newly released since the previous tick. The event source feeds
//! it key-down and key-up events; simulation systems read it; the "just" sets
//! are cleared once per tick after the systems have observed them.

use vstd::prelude::*;

verus! {

broadcast use vstd::seq_lib::lemma_seq_contains_after_push;

/// Key code of the forward key (the letter W).
pub const KEY_W: u32 = 87;
/// Key code of the left-turn key (the letter A).
pub const KEY_A: u32 = 65;
/// Key code of the back key (the letter S).
pub const KEY_S: u32 = 83;
/// Key code of the right-turn key (the letter D).
pub const KEY_D: u32 = 68;

/// Whether `v` holds `k`.
fn keys_contain(v: &Vec<u32>, k: u32) -> (r: bool)
    ensures
        r == v@.contains(k),
{
    let mut i: usize = 0;
    while i < v.len()
        invariant
            i <= v@.len(),
            forall|j: int| 0 <= j < i ==> v@[j] != k,
        decreases v@.len() - i,
    {
        if v[i] == k {
            return true;
        }
        i += 1;
    }
    false
}

/// `v` without every occurrence of `k`.
fn keys_without(v: &Vec<u32>, k: u32) -> (r: Vec<u32>)
    ensures
        forall|x: u32| r@.contains(x) == (v@.contains(x) && x != k),
{
    let mut out: Vec<u32> = Vec::new();
    let mut i: usize = 0;
    while i < v.len()
        invariant
            i <= v@.len(),
            forall|x: u32| out@.contains(x) == (v@.take(i as int).contains(x) && x != k),
        decreases v@.len() - i,
    {
        proof {
            assert(v@.take(i + 1) =~= v@.take(i as int).push(v@[i as int]));
        }
        if v[i] != k {
            out.push(v[i]);
        }
        i += 1;
    }
    proof {
        assert(v@.take(v@.len() as int) =~= v@);
    }
    out
}

/// The three disjoint key sets the simulation reads: keys held down, keys
/// pressed this frame, keys released this frame.
pub struct InputState {
    keys_pressed: Vec<u32>,
    keys_just_pressed: Vec<u32>,
    keys_just_released: Vec<u32>,
}

impl InputState {
    /// Whether `k` is currently held down.
    pub closed spec fn pressed(self, k: u32) -> bool {
        self.keys_pressed@.contains(k)
    }

    /// Whether `k` went down since the previous tick.
    pub closed spec fn just_pressed(self, k: u32) -> bool {
        self.keys_just_pressed@.contains(k)
    }

    /// Whether `k` went up since the previous tick.
    pub closed spec fn just_released(self, k: u32) -> bool {
        self.keys_just_released@.contains(k)
    }

    /// The empty input state: no key held, none just pressed or released.
    pub fn new() -> (r: InputState)
        ensures
            forall|k: u32| !r.pressed(k),
            forall|k: u32| !r.just_pressed(k),
            forall|k: u32| !r.just_released(k),
    {
        InputState {
            keys_pressed: Vec::new(),
            keys_just_pressed: Vec::new(),
            keys_just_released: Vec::new(),
        }
    }

    /// End-of-tick reset: forgets the just-pressed and just-released sets,
    /// keeping the held set.
    pub fn update(&mut self)
        ensures
            forall|k: u32| final(self).pressed(k) == old(self).pressed(k),
            forall|k: u32| !final(self).just_pressed(k),
            forall|k: u32| !final(self).just_released(k),
    {
        self.keys_just_pressed.clear();
        self.keys_just_released.clear();
    }

    /// A key-down event: the key joins the held set, and joins the
    /// just-pressed set unless it was already held.
    pub fn press_key(&mut self, key: u32)
        ensures
            forall|k: u32| final(self).pressed(k) == (old(self).pressed(k) || k == key),
            forall|k: u32|
                final(self).just_pressed(k) == (old(self).just_pressed(k) || (k == key
                    && !old(self).pressed(key))),
            forall|k: u32| final(self).just_released(k) == old(self).just_released(k),
    {
        if !keys_contain(&self.keys_pressed, key) {
            if !keys_contain(&self.keys_just_pressed, key) {
                self.keys_just_pressed.push(key);
            }
            self.keys_pressed.push(key);
        }
    }

    /// A key-up event: the key leaves the held set, and joins the
    /// just-released set if it was held.
    pub fn release_key(&mut self, key: u32)
        ensures
            forall|k: u32| final(self).pressed(k) == (old(self).pressed(k) && k != key),
            forall|k: u32| final(self).just_pressed(k) == old(self).just_pressed(k),
            forall|k: u32|
                final(self).just_released(k) == (old(self).just_released(k) || (k == key && old(
                    self,
                ).pressed(key))),
    {
        if keys_contain(&self.keys_pressed, key) {
            if !keys_contain(&self.keys_just_released, key) {
                self.keys_just_released.push(key);
            }
            self.keys_pressed = keys_without(&self.keys_pressed, key);
        }
    }

    /// Whether `key` is currently held down.
    pub fn is_key_pressed(&self, key: u32) -> (r: bool)
        ensures
            r == self.pressed(key),
    {
        keys_contain(&self.keys_pressed, key)
    }

    /// Whether `key` went down since the previous tick.
    pub fn is_key_just_pressed(&self, key: u32) -> (r: bool)
        ensures
            r == self.just_pressed(key),
    {
        keys_contain(&self.keys_just_pressed, key)
    }

    /// Whether `key` went up since the previous tick.
    pub fn is_key_just_released(&self, key: u32) -> (r: bool)
        ensures
            r == self.just_released(key),
    {
        keys_contain(&self.keys_just_released, key)
    }
}

} // verus!
