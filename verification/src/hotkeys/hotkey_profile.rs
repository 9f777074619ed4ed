use vstd::prelude::*;

use crate::hotkeys::hotkey::{Hotkey, keys_match_spec};
use crate::hotkeys::keycode::Keycode;
use crate::window::window_state::WindowState;

verus! {

/// The window change triggered by the first of `hotkeys` whose combination
/// the pressed `keys` match, or `None` where none matches.
pub open spec fn first_matching_action(
    hotkeys: Seq<(WindowState, Seq<Keycode>)>,
    keys: Seq<Keycode>,
) -> Option<WindowState>
    decreases hotkeys.len(),
{
    if hotkeys.len() == 0 {
        None
    } else if keys_match_spec(hotkeys[0].1, keys) {
        Some(hotkeys[0].0)
    } else {
        first_matching_action(hotkeys.drop_first(), keys)
    }
}

/// The hotkeys of a profile, in the order in which they are tried: left,
/// right, top, bottom, full.
pub open spec fn profile_spec(
    left_keys: Seq<Keycode>,
    right_keys: Seq<Keycode>,
    top_keys: Seq<Keycode>,
    bottom_keys: Seq<Keycode>,
    full_keys: Seq<Keycode>,
) -> Seq<(WindowState, Seq<Keycode>)> {
    seq![
        (WindowState::Left, left_keys),
        (WindowState::Right, right_keys),
        (WindowState::Top, top_keys),
        (WindowState::Bottom, bottom_keys),
        (WindowState::Full, full_keys),
    ]
}

/// The hotkeys that dock the foreground window to the left, right, top and
/// bottom halves of the screen and to the full screen.
pub struct HotkeyProfile {
    left_key: Hotkey,
    right_key: Hotkey,
    top_key: Hotkey,
    bottom_key: Hotkey,
    full_key: Hotkey,
}

impl View for HotkeyProfile {
    type V = Seq<(WindowState, Seq<Keycode>)>;

    closed spec fn view(&self) -> Seq<(WindowState, Seq<Keycode>)> {
        seq![self.left_key@, self.right_key@, self.top_key@, self.bottom_key@, self.full_key@]
    }
}

impl HotkeyProfile {
    pub fn new(
        left_keys: Vec<Keycode>,
        right_keys: Vec<Keycode>,
        top_keys: Vec<Keycode>,
        bottom_keys: Vec<Keycode>,
        full_keys: Vec<Keycode>,
    ) -> (p: Self)
        ensures
            p@ == profile_spec(left_keys@, right_keys@, top_keys@, bottom_keys@, full_keys@),
    {
        let p = HotkeyProfile {
            left_key: Hotkey::new(WindowState::Left, left_keys),
            right_key: Hotkey::new(WindowState::Right, right_keys),
            top_key: Hotkey::new(WindowState::Top, top_keys),
            bottom_key: Hotkey::new(WindowState::Bottom, bottom_keys),
            full_key: Hotkey::new(WindowState::Full, full_keys),
        };
        assert(p@ =~= profile_spec(left_keys@, right_keys@, top_keys@, bottom_keys@, full_keys@));
        p
    }

    /// The window change that the pressed `incoming_keys` trigger: that of
    /// the first hotkey, in the profile's order, whose combination they
    /// match; `None` where they match none. The caller carries it out.
    pub fn process_incoming_keys(&self, incoming_keys: &Vec<Keycode>) -> (r: Option<WindowState>)
        ensures
            r == first_matching_action(self@, incoming_keys@),
            r matches Some(state) ==> exists|i: int|
                0 <= i < self@.len() && #[trigger] self@[i].0 == state && keys_match_spec(
                    self@[i].1,
                    incoming_keys@,
                ),
            r is None ==> forall|i: int|
                0 <= i < self@.len() ==> !keys_match_spec(#[trigger] self@[i].1, incoming_keys@),
    {
        proof {
            lemma_first_matching_action(self@, incoming_keys@);
        }
        let matching_key = self.get_matching_key_from_incoming_keys(incoming_keys);

        if let Some(key) = matching_key {
            Some(key.execute_callback())
        } else {
            None
        }
    }

    /// The first hotkey, in the profile's order, whose combination the
    /// pressed keys match.
    fn get_matching_key_from_incoming_keys(&self, incoming_keys: &Vec<Keycode>) -> (r: Option<
        &Hotkey,
    >)
        ensures
            match r {
                Some(h) => first_matching_action(self@, incoming_keys@) == Some(h@.0),
                None => first_matching_action(self@, incoming_keys@) is None,
            },
    {
        let keys = self.get_all_keys();
        let mut i: usize = 0;
        assert(self@.skip(0) =~= self@);
        while i < keys.len()
            invariant
                i <= keys@.len(),
                keys@.len() == self@.len(),
                forall|j: int| 0 <= j < keys@.len() ==> (#[trigger] keys@[j])@ == self@[j],
                first_matching_action(self@, incoming_keys@) == first_matching_action(
                    self@.skip(i as int),
                    incoming_keys@,
                ),
            decreases keys@.len() - i,
        {
            assert(self@.skip(i as int).drop_first() =~= self@.skip(i + 1));
            if keys[i].check_if_keys_match(incoming_keys) {
                return Some(keys[i]);
            }
            i = i + 1;
        }
        None
    }

    fn get_all_keys(&self) -> (keys: Vec<&Hotkey>)
        ensures
            keys@.len() == self@.len(),
            forall|j: int| 0 <= j < keys@.len() ==> (#[trigger] keys@[j])@ == self@[j],
    {
        vec![&self.left_key, &self.right_key, &self.top_key, &self.bottom_key, &self.full_key]
    }
}

/// The first matching hotkey is one whose combination the keys match, and
/// where none is found, the keys match no hotkey at all.
pub proof fn lemma_first_matching_action(
    hotkeys: Seq<(WindowState, Seq<Keycode>)>,
    keys: Seq<Keycode>,
)
    ensures
        first_matching_action(hotkeys, keys) matches Some(state) ==> exists|i: int|
            0 <= i < hotkeys.len() && #[trigger] hotkeys[i].0 == state && keys_match_spec(
                hotkeys[i].1,
                keys,
            ),
        first_matching_action(hotkeys, keys) is None ==> forall|i: int|
            0 <= i < hotkeys.len() ==> !keys_match_spec(#[trigger] hotkeys[i].1, keys),
    decreases hotkeys.len(),
{
    if hotkeys.len() > 0 && !keys_match_spec(hotkeys[0].1, keys) {
        let rest = hotkeys.drop_first();
        lemma_first_matching_action(rest, keys);
        if let Some(state) = first_matching_action(hotkeys, keys) {
            let i = choose|i: int|
                0 <= i < rest.len() && #[trigger] rest[i].0 == state && keys_match_spec(
                    rest[i].1,
                    keys,
                );
            assert(hotkeys[i + 1] == rest[i]);
        } else {
            assert forall|i: int| 0 <= i < hotkeys.len() implies !keys_match_spec(
                #[trigger] hotkeys[i].1,
                keys,
            ) by {
                if i > 0 {
                    assert(hotkeys[i] == rest[i - 1]);
                }
            }
        }
    }
}

} // verus!
