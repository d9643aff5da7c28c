//! The keys that are held down.

use vstd::prelude::*;
use vstd::hash_map::StringHashMap;

verus! {

/// The set of keys that are held down, each known by its code.
pub struct KeyState {
    pressed_keys: StringHashMap<bool>,
}

impl View for KeyState {
    type V = Set<Seq<char>>;

    closed spec fn view(&self) -> Set<Seq<char>> {
        self.pressed_keys@.dom()
    }
}

impl KeyState {
    /// No key is held down.
    pub fn new() -> (keys: Self)
        ensures
            keys@ == Set::<Seq<char>>::empty(),
    {
        let keys = KeyState { pressed_keys: StringHashMap::new() };
        assert(keys@ =~= Set::<Seq<char>>::empty());
        keys
    }

    /// Whether the key with the given code is held down.
    pub fn is_pressed(&self, code: &str) -> (pressed: bool)
        ensures
            pressed == self@.contains(code@),
    {
        self.pressed_keys.contains_key(code)
    }

    /// Records that the key with the given code went down.
    pub fn set_pressed(&mut self, code: &str)
        ensures
            final(self)@ == old(self)@.insert(code@),
    {
        self.pressed_keys.insert(String::from_str(code), true);
        assert(self@ =~= old(self)@.insert(code@));
    }

    /// Records that the key with the given code went up.
    pub fn set_released(&mut self, code: &str)
        ensures
            final(self)@ == old(self)@.remove(code@),
    {
        self.pressed_keys.remove(code);
        assert(self@ =~= old(self)@.remove(code@));
    }
}

} // verus!
