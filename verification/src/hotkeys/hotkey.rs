use vstd::prelude::*;

use crate::hotkeys::keycode::Keycode;
use crate::window::window_state::WindowState;

verus! {

/// A set of pressed keys matches a key combination when exactly as many keys
/// are pressed as the combination has, and every key of the combination is
/// among them.
pub open spec fn keys_match_spec(key_combination: Seq<Keycode>, keys: Seq<Keycode>) -> bool {
    &&& keys.len() == key_combination.len()
    &&& forall|i: int| 0 <= i < key_combination.len() ==> keys.contains(#[trigger] key_combination[i])
}

/// A key combination together with the window change it triggers.
pub struct Hotkey {
    callback: WindowState,
    key_combination: Vec<Keycode>,
}

impl View for Hotkey {
    type V = (WindowState, Seq<Keycode>);

    closed spec fn view(&self) -> (WindowState, Seq<Keycode>) {
        (self.callback, self.key_combination@)
    }
}

impl Hotkey {
    pub fn new(callback: WindowState, key_combination: Vec<Keycode>) -> (h: Self)
        ensures
            h@ == (callback, key_combination@),
    {
        Hotkey { callback: callback, key_combination: key_combination }
    }

    /// The window change this hotkey triggers; the caller carries it out.
    pub fn execute_callback(&self) -> (state: WindowState)
        ensures
            state == self@.0,
    {
        self.callback
    }

    /// Whether the pressed `keys` match this hotkey's key combination.
    pub fn check_if_keys_match(&self, keys: &Vec<Keycode>) -> (r: bool)
        ensures
            r == keys_match_spec(self@.1, keys@),
    {
        if keys.len() != self.key_combination.len() {
            false
        } else {
            let mut i: usize = 0;
            while i < self.key_combination.len()
                invariant
                    i <= self.key_combination@.len(),
                    forall|j: int| 0 <= j < i ==> keys@.contains(#[trigger] self.key_combination@[j]),
                decreases self.key_combination@.len() - i,
            {
                if !contains_key(keys, self.key_combination[i]) {
                    return false;
                }
                i = i + 1;
            }
            true
        }
    }
}

/// Whether `key` is among `keys`.
fn contains_key(keys: &Vec<Keycode>, key: Keycode) -> (r: bool)
    ensures
        r == keys@.contains(key),
{
    let mut i: usize = 0;
    while i < keys.len()
        invariant
            i <= keys@.len(),
            forall|j: int| 0 <= j < i ==> keys@[j] != key,
        decreases keys@.len() - i,
    {
        if keys[i] == key {
            return true;
        }
        i = i + 1;
    }
    false
}

/// Whether pressed keys match a combination does not depend on the order in
/// which the keys are reported.
pub proof fn lemma_match_ignores_key_order(
    key_combination: Seq<Keycode>,
    keys: Seq<Keycode>,
    reordered: Seq<Keycode>,
)
    requires
        keys.to_multiset() == reordered.to_multiset(),
    ensures
        keys_match_spec(key_combination, keys) == keys_match_spec(key_combination, reordered),
{
    broadcast use vstd::seq_lib::group_to_multiset_ensures;

    assert(keys.len() == keys.to_multiset().len());
    assert(reordered.len() == reordered.to_multiset().len());

    assert forall|k: Keycode| keys.contains(k) == reordered.contains(k) by {
        assert(keys.contains(k) <==> keys.to_multiset().count(k) > 0);
        assert(reordered.contains(k) <==> reordered.to_multiset().count(k) > 0);
    }
}

/// A key combination is matched by pressing exactly its keys.
pub proof fn lemma_combination_matches_itself(key_combination: Seq<Keycode>)
    ensures
        keys_match_spec(key_combination, key_combination),
{
    assert forall|i: int| 0 <= i < key_combination.len() implies key_combination.contains(
        #[trigger] key_combination[i],
    ) by {}
}

/// Pressed keys that lack any key of a combination, whichever its place in
/// the combination, never match it.
pub proof fn lemma_missing_key_never_matches(
    key_combination: Seq<Keycode>,
    keys: Seq<Keycode>,
    missing: int,
)
    requires
        0 <= missing < key_combination.len(),
        !keys.contains(key_combination[missing]),
    ensures
        !keys_match_spec(key_combination, keys),
{
}

/// Pressing more or fewer keys than a combination has never matches it.
pub proof fn lemma_key_count_must_agree(key_combination: Seq<Keycode>, keys: Seq<Keycode>)
    requires
        keys.len() != key_combination.len(),
    ensures
        !keys_match_spec(key_combination, keys),
{
}

/// Pressing exactly the keys of a combination, in any order, matches it.
pub proof fn lemma_exact_keys_match(key_combination: Seq<Keycode>, keys: Seq<Keycode>)
    requires
        keys.to_multiset() == key_combination.to_multiset(),
    ensures
        keys_match_spec(key_combination, keys),
{
    lemma_combination_matches_itself(key_combination);
    lemma_match_ignores_key_order(key_combination, key_combination, keys);
}

} // verus!
