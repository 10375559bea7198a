//! Input Bindings
//!
//! Named actions bound to keys (with modifiers) and mouse buttons, and the
//! rule that decides whether an action is triggered by a set of keys and
//! buttons. The window layer reports which keys and buttons are down or were
//! just pressed; this module names them and decides.

use vstd::prelude::*;
use crate::strmap::StrMap;
use crate::text::{ascii_lower, eq_ascii_lower, equals_ascii_lower, str_equals};

verus! {

/// The keys that bindings can name.
#[derive(Debug, Clone, Copy, PartialEq, Eq, Hash, Structural)]
pub enum Key {
    A,
    B,
    C,
    D,
    E,
    F,
    G,
    H,
    I,
    J,
    K,
    L,
    M,
    N,
    O,
    P,
    Q,
    R,
    S,
    T,
    U,
    V,
    W,
    X,
    Y,
    Z,
    Num0,
    Num1,
    Num2,
    Num3,
    Num4,
    Num5,
    Num6,
    Num7,
    Num8,
    Num9,
    Space,
    Enter,
    Escape,
    Tab,
    Backspace,
    ArrowUp,
    ArrowDown,
    ArrowLeft,
    ArrowRight,
    F1,
    F2,
    F3,
    F4,
    F5,
    F6,
    F7,
    F8,
    F9,
    F10,
    F11,
    F12,
    /// Any other key, by the window layer's number for it. No binding names one.
    Other(u32),
}

/// The mouse buttons that bindings can name.
#[derive(Debug, Clone, Copy, PartialEq, Eq, Hash, Structural)]
pub enum MouseButton {
    Primary,
    Secondary,
    Middle,
    /// The first extra button. No binding names it.
    Extra1,
    /// The second extra button. No binding names it.
    Extra2,
}

/// The key a binding string names: a letter `A`-`Z`, a digit, `Space`,
/// `Enter`, `Escape`, `Tab`, `Backspace`, an arrow, or `F1`-`F12`, written
/// exactly so.
pub open spec fn key_named(s: Seq<char>) -> Option<Key> {
    if s == "A"@ {
        Some(Key::A)
    } else if s == "B"@ {
        Some(Key::B)
    } else if s == "C"@ {
        Some(Key::C)
    } else if s == "D"@ {
        Some(Key::D)
    } else if s == "E"@ {
        Some(Key::E)
    } else if s == "F"@ {
        Some(Key::F)
    } else if s == "G"@ {
        Some(Key::G)
    } else if s == "H"@ {
        Some(Key::H)
    } else if s == "I"@ {
        Some(Key::I)
    } else if s == "J"@ {
        Some(Key::J)
    } else if s == "K"@ {
        Some(Key::K)
    } else if s == "L"@ {
        Some(Key::L)
    } else if s == "M"@ {
        Some(Key::M)
    } else if s == "N"@ {
        Some(Key::N)
    } else if s == "O"@ {
        Some(Key::O)
    } else if s == "P"@ {
        Some(Key::P)
    } else if s == "Q"@ {
        Some(Key::Q)
    } else if s == "R"@ {
        Some(Key::R)
    } else if s == "S"@ {
        Some(Key::S)
    } else if s == "T"@ {
        Some(Key::T)
    } else if s == "U"@ {
        Some(Key::U)
    } else if s == "V"@ {
        Some(Key::V)
    } else if s == "W"@ {
        Some(Key::W)
    } else if s == "X"@ {
        Some(Key::X)
    } else if s == "Y"@ {
        Some(Key::Y)
    } else if s == "Z"@ {
        Some(Key::Z)
    } else if s == "0"@ {
        Some(Key::Num0)
    } else if s == "1"@ {
        Some(Key::Num1)
    } else if s == "2"@ {
        Some(Key::Num2)
    } else if s == "3"@ {
        Some(Key::Num3)
    } else if s == "4"@ {
        Some(Key::Num4)
    } else if s == "5"@ {
        Some(Key::Num5)
    } else if s == "6"@ {
        Some(Key::Num6)
    } else if s == "7"@ {
        Some(Key::Num7)
    } else if s == "8"@ {
        Some(Key::Num8)
    } else if s == "9"@ {
        Some(Key::Num9)
    } else if s == "Space"@ {
        Some(Key::Space)
    } else if s == "Enter"@ {
        Some(Key::Enter)
    } else if s == "Escape"@ {
        Some(Key::Escape)
    } else if s == "Tab"@ {
        Some(Key::Tab)
    } else if s == "Backspace"@ {
        Some(Key::Backspace)
    } else if s == "ArrowUp"@ {
        Some(Key::ArrowUp)
    } else if s == "ArrowDown"@ {
        Some(Key::ArrowDown)
    } else if s == "ArrowLeft"@ {
        Some(Key::ArrowLeft)
    } else if s == "ArrowRight"@ {
        Some(Key::ArrowRight)
    } else if s == "F1"@ {
        Some(Key::F1)
    } else if s == "F2"@ {
        Some(Key::F2)
    } else if s == "F3"@ {
        Some(Key::F3)
    } else if s == "F4"@ {
        Some(Key::F4)
    } else if s == "F5"@ {
        Some(Key::F5)
    } else if s == "F6"@ {
        Some(Key::F6)
    } else if s == "F7"@ {
        Some(Key::F7)
    } else if s == "F8"@ {
        Some(Key::F8)
    } else if s == "F9"@ {
        Some(Key::F9)
    } else if s == "F10"@ {
        Some(Key::F10)
    } else if s == "F11"@ {
        Some(Key::F11)
    } else if s == "F12"@ {
        Some(Key::F12)
    } else {
        None
    }
}

/// The position of a key in [`key_names`]; -1 for a key outside the named set.
pub open spec fn key_index(k: Key) -> int {
    match k {
        Key::A => 56,
        Key::B => 55,
        Key::C => 54,
        Key::D => 53,
        Key::E => 52,
        Key::F => 51,
        Key::G => 50,
        Key::H => 49,
        Key::I => 48,
        Key::J => 47,
        Key::K => 46,
        Key::L => 45,
        Key::M => 44,
        Key::N => 43,
        Key::O => 42,
        Key::P => 41,
        Key::Q => 40,
        Key::R => 39,
        Key::S => 38,
        Key::T => 37,
        Key::U => 36,
        Key::V => 35,
        Key::W => 34,
        Key::X => 33,
        Key::Y => 32,
        Key::Z => 31,
        Key::Num0 => 30,
        Key::Num1 => 29,
        Key::Num2 => 28,
        Key::Num3 => 27,
        Key::Num4 => 26,
        Key::Num5 => 25,
        Key::Num6 => 24,
        Key::Num7 => 23,
        Key::Num8 => 22,
        Key::Num9 => 21,
        Key::Space => 20,
        Key::Enter => 19,
        Key::Escape => 18,
        Key::Tab => 17,
        Key::Backspace => 16,
        Key::ArrowUp => 15,
        Key::ArrowDown => 14,
        Key::ArrowLeft => 13,
        Key::ArrowRight => 12,
        Key::F1 => 11,
        Key::F2 => 10,
        Key::F3 => 9,
        Key::F4 => 8,
        Key::F5 => 7,
        Key::F6 => 6,
        Key::F7 => 5,
        Key::F8 => 4,
        Key::F9 => 3,
        Key::F10 => 2,
        Key::F11 => 1,
        Key::F12 => 0,
        Key::Other(_) => -1,
    }
}

/// The names that bindings use, in the order of [`key_index`]: function
/// keys, the named keys, digits, then letters, each run backwards.
pub open spec fn key_names() -> Seq<Seq<char>> {
    seq![
        "F12"@,
        "F11"@,
        "F10"@,
        "F9"@,
        "F8"@,
        "F7"@,
        "F6"@,
        "F5"@,
        "F4"@,
        "F3"@,
        "F2"@,
        "F1"@,
        "ArrowRight"@,
        "ArrowLeft"@,
        "ArrowDown"@,
        "ArrowUp"@,
        "Backspace"@,
        "Tab"@,
        "Escape"@,
        "Enter"@,
        "Space"@,
        "9"@,
        "8"@,
        "7"@,
        "6"@,
        "5"@,
        "4"@,
        "3"@,
        "2"@,
        "1"@,
        "0"@,
        "Z"@,
        "Y"@,
        "X"@,
        "W"@,
        "V"@,
        "U"@,
        "T"@,
        "S"@,
        "R"@,
        "Q"@,
        "P"@,
        "O"@,
        "N"@,
        "M"@,
        "L"@,
        "K"@,
        "J"@,
        "I"@,
        "H"@,
        "G"@,
        "F"@,
        "E"@,
        "D"@,
        "C"@,
        "B"@,
        "A"@,
    ]
}

/// The name a binding uses for a key: the key's own name (`Num0`-`Num9`
/// are written as the digit); keys outside the named set have none.
pub open spec fn key_name(k: Key) -> Seq<char> {
    if 0 <= key_index(k) < key_names().len() {
        key_names()[key_index(k)]
    } else {
        Seq::empty()
    }
}

/// Convert a string to a key
pub fn string_to_key(s: &str) -> (k: Option<Key>)
    ensures
        k == key_named(s@),
{
    if str_equals(s, "A") {
        Some(Key::A)
    } else if str_equals(s, "B") {
        Some(Key::B)
    } else if str_equals(s, "C") {
        Some(Key::C)
    } else if str_equals(s, "D") {
        Some(Key::D)
    } else if str_equals(s, "E") {
        Some(Key::E)
    } else if str_equals(s, "F") {
        Some(Key::F)
    } else if str_equals(s, "G") {
        Some(Key::G)
    } else if str_equals(s, "H") {
        Some(Key::H)
    } else if str_equals(s, "I") {
        Some(Key::I)
    } else if str_equals(s, "J") {
        Some(Key::J)
    } else if str_equals(s, "K") {
        Some(Key::K)
    } else if str_equals(s, "L") {
        Some(Key::L)
    } else if str_equals(s, "M") {
        Some(Key::M)
    } else if str_equals(s, "N") {
        Some(Key::N)
    } else if str_equals(s, "O") {
        Some(Key::O)
    } else if str_equals(s, "P") {
        Some(Key::P)
    } else if str_equals(s, "Q") {
        Some(Key::Q)
    } else if str_equals(s, "R") {
        Some(Key::R)
    } else if str_equals(s, "S") {
        Some(Key::S)
    } else if str_equals(s, "T") {
        Some(Key::T)
    } else if str_equals(s, "U") {
        Some(Key::U)
    } else if str_equals(s, "V") {
        Some(Key::V)
    } else if str_equals(s, "W") {
        Some(Key::W)
    } else if str_equals(s, "X") {
        Some(Key::X)
    } else if str_equals(s, "Y") {
        Some(Key::Y)
    } else if str_equals(s, "Z") {
        Some(Key::Z)
    } else if str_equals(s, "0") {
        Some(Key::Num0)
    } else if str_equals(s, "1") {
        Some(Key::Num1)
    } else if str_equals(s, "2") {
        Some(Key::Num2)
    } else if str_equals(s, "3") {
        Some(Key::Num3)
    } else if str_equals(s, "4") {
        Some(Key::Num4)
    } else if str_equals(s, "5") {
        Some(Key::Num5)
    } else if str_equals(s, "6") {
        Some(Key::Num6)
    } else if str_equals(s, "7") {
        Some(Key::Num7)
    } else if str_equals(s, "8") {
        Some(Key::Num8)
    } else if str_equals(s, "9") {
        Some(Key::Num9)
    } else if str_equals(s, "Space") {
        Some(Key::Space)
    } else if str_equals(s, "Enter") {
        Some(Key::Enter)
    } else if str_equals(s, "Escape") {
        Some(Key::Escape)
    } else if str_equals(s, "Tab") {
        Some(Key::Tab)
    } else if str_equals(s, "Backspace") {
        Some(Key::Backspace)
    } else if str_equals(s, "ArrowUp") {
        Some(Key::ArrowUp)
    } else if str_equals(s, "ArrowDown") {
        Some(Key::ArrowDown)
    } else if str_equals(s, "ArrowLeft") {
        Some(Key::ArrowLeft)
    } else if str_equals(s, "ArrowRight") {
        Some(Key::ArrowRight)
    } else if str_equals(s, "F1") {
        Some(Key::F1)
    } else if str_equals(s, "F2") {
        Some(Key::F2)
    } else if str_equals(s, "F3") {
        Some(Key::F3)
    } else if str_equals(s, "F4") {
        Some(Key::F4)
    } else if str_equals(s, "F5") {
        Some(Key::F5)
    } else if str_equals(s, "F6") {
        Some(Key::F6)
    } else if str_equals(s, "F7") {
        Some(Key::F7)
    } else if str_equals(s, "F8") {
        Some(Key::F8)
    } else if str_equals(s, "F9") {
        Some(Key::F9)
    } else if str_equals(s, "F10") {
        Some(Key::F10)
    } else if str_equals(s, "F11") {
        Some(Key::F11)
    } else if str_equals(s, "F12") {
        Some(Key::F12)
    } else {
        None
    }
}

/// The mouse button a binding string names, ASCII case ignored.
pub open spec fn button_named(s: Seq<char>) -> Option<MouseButton> {
    if eq_ascii_lower(s, "left"@) || eq_ascii_lower(s, "primary"@) {
        Some(MouseButton::Primary)
    } else if eq_ascii_lower(s, "right"@) || eq_ascii_lower(s, "secondary"@) {
        Some(MouseButton::Secondary)
    } else if eq_ascii_lower(s, "middle"@) {
        Some(MouseButton::Middle)
    } else {
        None
    }
}

/// Convert a string to a mouse button
pub fn string_to_mouse_button(s: &str) -> (b: Option<MouseButton>)
    ensures
        b == button_named(s@),
{
    if equals_ascii_lower(s, "left") || equals_ascii_lower(s, "primary") {
        Some(MouseButton::Primary)
    } else if equals_ascii_lower(s, "right") || equals_ascii_lower(s, "secondary") {
        Some(MouseButton::Secondary)
    } else if equals_ascii_lower(s, "middle") {
        Some(MouseButton::Middle)
    } else {
        None
    }
}

/// Input action binding
#[derive(Debug, Clone)]
pub struct InputAction {
    pub name: String,
    pub keys: Vec<KeyBinding>,
    pub mouse_buttons: Vec<MouseBinding>,
}

#[derive(Debug, Clone)]
pub struct KeyBinding {
    pub key: String,
    pub modifiers: InputModifiers,
}

/// The modifier keys a binding asks for (or that are held).
#[derive(Debug, Clone, Copy, PartialEq, Eq, Structural)]
pub struct InputModifiers {
    pub ctrl: bool,
    pub shift: bool,
    pub alt: bool,
}

impl Default for InputModifiers {
    fn default() -> (m: Self)
        ensures
            !m.ctrl && !m.shift && !m.alt,
    {
        InputModifiers { ctrl: false, shift: false, alt: false }
    }
}

#[derive(Debug, Clone)]
pub struct MouseBinding {
    /// "left", "right", "middle"
    pub button: String,
}

/// Every modifier the binding asks for is held.
pub open spec fn modifiers_match(wanted: InputModifiers, held: InputModifiers) -> bool {
    (!wanted.ctrl || held.ctrl) && (!wanted.shift || held.shift) && (!wanted.alt || held.alt)
}

/// A key binding fires: its key is among `keys` and its modifiers are held.
pub open spec fn key_binding_fires(b: KeyBinding, keys: Set<Key>, held: InputModifiers) -> bool {
    match key_named(b.key@) {
        Some(k) => keys.contains(k) && modifiers_match(b.modifiers, held),
        None => false,
    }
}

/// A mouse binding fires: its button is among `buttons`.
pub open spec fn mouse_binding_fires(b: MouseBinding, buttons: Set<MouseButton>) -> bool {
    match button_named(b.button@) {
        Some(m) => buttons.contains(m),
        None => false,
    }
}

/// An action fires when one of its key bindings or mouse bindings does.
pub open spec fn action_fires(
    a: InputAction,
    keys: Set<Key>,
    buttons: Set<MouseButton>,
    held: InputModifiers,
) -> bool {
    (exists|i: int| 0 <= i < a.keys@.len() && key_binding_fires(#[trigger] a.keys@[i], keys, held))
        || (exists|j: int| 0 <= j < a.mouse_buttons@.len() && mouse_binding_fires(#[trigger] a.mouse_buttons@[j], buttons))
}

fn contains_key(keys: &[Key], k: Key) -> (r: bool)
    ensures
        r == keys@.contains(k),
{
    let mut i: usize = 0;
    while i < keys.len()
        invariant
            i <= keys@.len(),
            forall|j: int| 0 <= j < i ==> keys@[j] != k,
        decreases keys@.len() - i,
    {
        if keys[i] == k {
            assert(keys@[i as int] == k);
            return true;
        }
        i = i + 1;
    }
    false
}

fn contains_button(buttons: &[MouseButton], b: MouseButton) -> (r: bool)
    ensures
        r == buttons@.contains(b),
{
    let mut i: usize = 0;
    while i < buttons.len()
        invariant
            i <= buttons@.len(),
            forall|j: int| 0 <= j < i ==> buttons@[j] != b,
        decreases buttons@.len() - i,
    {
        if buttons[i] == b {
            assert(buttons@[i as int] == b);
            return true;
        }
        i = i + 1;
    }
    false
}

/// Whether `action` fires for the given keys, buttons and held modifiers.
pub fn action_triggered(action: &InputAction, keys: &[Key], buttons: &[MouseButton], held: InputModifiers) -> (r: bool)
    ensures
        r == action_fires(*action, keys@.to_set(), buttons@.to_set(), held),
{
    let mut i: usize = 0;
    while i < action.keys.len()
        invariant
            i <= action.keys@.len(),
            forall|j: int| 0 <= j < i ==> !key_binding_fires(#[trigger] action.keys@[j], keys@.to_set(), held),
        decreases action.keys@.len() - i,
    {
        let binding = &action.keys[i];
        match string_to_key(binding.key.as_str()) {
            Some(key) => {
                if contains_key(keys, key) {
                    // Check modifiers
                    let mods_match = (!binding.modifiers.ctrl || held.ctrl) && (!binding.modifiers.shift
                        || held.shift) && (!binding.modifiers.alt || held.alt);
                    if mods_match {
                        assert(key_binding_fires(action.keys@[i as int], keys@.to_set(), held));
                        return true;
                    }
                }
            },
            None => {},
        }
        i = i + 1;
    }
    let mut j: usize = 0;
    while j < action.mouse_buttons.len()
        invariant
            j <= action.mouse_buttons@.len(),
            forall|k: int| 0 <= k < action.keys@.len() ==> !key_binding_fires(#[trigger] action.keys@[k], keys@.to_set(), held),
            forall|k: int| 0 <= k < j ==> !mouse_binding_fires(#[trigger] action.mouse_buttons@[k], buttons@.to_set()),
        decreases action.mouse_buttons@.len() - j,
    {
        let binding = &action.mouse_buttons[j];
        match string_to_mouse_button(binding.button.as_str()) {
            Some(button) => {
                if contains_button(buttons, button) {
                    assert(mouse_binding_fires(action.mouse_buttons@[j as int], buttons@.to_set()));
                    return true;
                }
            },
            None => {},
        }
        j = j + 1;
    }
    false
}

/// The registered actions, by name.
pub struct InputBindings {
    actions: StrMap<InputAction>,
}

impl InputBindings {
    /// The registered actions.
    pub closed spec fn actions(&self) -> Map<Seq<char>, InputAction> {
        self.actions@
    }

    pub fn new() -> (b: Self)
        ensures
            b.actions() == Map::<Seq<char>, InputAction>::empty(),
    {
        InputBindings { actions: StrMap::new() }
    }

    /// Registers `action` under its name, replacing an action of that name.
    pub fn register_action(&mut self, action: InputAction)
        ensures
            final(self).actions() == old(self).actions().insert(action.name@, action),
    {
        let name = action.name.clone();
        self.actions.insert(name, action);
    }

    /// The action registered under `name`.
    pub fn action(&self, name: &str) -> (r: Option<&InputAction>)
        ensures
            match r {
                Some(a) => self.actions().contains_key(name@) && self.actions()[name@] == *a,
                None => !self.actions().contains_key(name@),
            },
    {
        self.actions.get(name)
    }

    /// Whether the action `name` is registered and fires for the given keys,
    /// buttons and held modifiers (keys and buttons just pressed, for "pressed";
    /// keys and buttons held, for "down").
    pub fn is_action_triggered(&self, name: &str, keys: &[Key], buttons: &[MouseButton], held: InputModifiers) -> (r: bool)
        ensures
            r == (self.actions().contains_key(name@) && action_fires(self.actions()[name@], keys@.to_set(), buttons@.to_set(), held)),
    {
        match self.actions.get(name) {
            Some(action) => action_triggered(action, keys, buttons, held),
            None => false,
        }
    }

    /// Registers the default actions for action-adventure games: jump (Space),
    /// attack (J or the left button), interact (E), dash (K or Shift+Space),
    /// pause (Escape) and inventory (I or Tab). Other actions stay as they were.
    pub fn setup_default_actions(&mut self)
        ensures
            has_default_actions(final(self).actions()),
            final(self).actions().dom() == old(self).actions().dom().union(default_action_names()),
            forall|k: Seq<char>|
                !default_action_names().contains(k) && #[trigger] old(self).actions().contains_key(k)
                    ==> final(self).actions()[k] == old(self).actions()[k],
    {
        proof {
            reveal_strlit("jump");
            reveal_strlit("attack");
            reveal_strlit("interact");
            reveal_strlit("dash");
            reveal_strlit("pause");
            reveal_strlit("inventory");
            assert("jump"@[0] != "dash"@[0]);
            assert("jump"@.len() != "attack"@.len() && "jump"@.len() != "interact"@.len());
            assert("jump"@.len() != "pause"@.len() && "jump"@.len() != "inventory"@.len());
            assert("attack"@.len() != "interact"@.len() && "attack"@.len() != "dash"@.len());
            assert("attack"@.len() != "pause"@.len() && "attack"@.len() != "inventory"@.len());
        }
        let ghost start = self.actions();
        let none = InputModifiers::default();
        let shift = InputModifiers { ctrl: false, shift: true, alt: false };

        let jump = action_with("jump", "Space", none);
        let ghost jump_v = jump;
        self.register_action(jump);

        let mut attack = action_with("attack", "J", none);
        attack.mouse_buttons.push(MouseBinding { button: "left".to_owned() });
        assert(binds(attack, "attack"@, seq![("J"@, no_modifiers())], seq!["left"@]));
        let ghost attack_v = attack;
        self.register_action(attack);

        let interact = action_with("interact", "E", none);
        let ghost interact_v = interact;
        self.register_action(interact);

        let mut dash = action_with("dash", "K", none);
        dash.keys.push(KeyBinding { key: "Space".to_owned(), modifiers: shift });
        assert(binds(dash, "dash"@, seq![("K"@, no_modifiers()), ("Space"@, shift_only())], seq![]));
        let ghost dash_v = dash;
        self.register_action(dash);

        let pause = action_with("pause", "Escape", none);
        let ghost pause_v = pause;
        self.register_action(pause);

        let mut inventory = action_with("inventory", "I", none);
        inventory.keys.push(KeyBinding { key: "Tab".to_owned(), modifiers: none });
        assert(binds(inventory, "inventory"@, seq![("I"@, no_modifiers()), ("Tab"@, no_modifiers())], seq![]));
        let ghost inventory_v = inventory;
        self.register_action(inventory);

        proof {
            assert(self.actions().dom() =~= start.dom().union(default_action_names()));
            assert(self.actions()["jump"@] == jump_v);
            assert(self.actions()["attack"@] == attack_v);
            assert(self.actions()["interact"@] == interact_v);
            assert(self.actions()["dash"@] == dash_v);
            assert(self.actions()["pause"@] == pause_v);
            assert(self.actions()["inventory"@] == inventory_v);
        }
    }
}

/// The modifiers of a binding that asks for none.
pub open spec fn no_modifiers() -> InputModifiers {
    InputModifiers { ctrl: false, shift: false, alt: false }
}

/// The modifiers of a binding that asks for Shift alone.
pub open spec fn shift_only() -> InputModifiers {
    InputModifiers { ctrl: false, shift: true, alt: false }
}

/// `a` is the action `name`, bound to exactly the given keys (each with its
/// modifiers) and mouse buttons, in that order.
pub open spec fn binds(
    a: InputAction,
    name: Seq<char>,
    keys: Seq<(Seq<char>, InputModifiers)>,
    buttons: Seq<Seq<char>>,
) -> bool {
    &&& a.name@ == name
    &&& a.keys@.len() == keys.len()
    &&& forall|i: int| 0 <= i < keys.len() ==> (#[trigger] a.keys@[i]).key@ == keys[i].0 && a.keys@[i].modifiers == keys[i].1
    &&& a.mouse_buttons@.len() == buttons.len()
    &&& forall|j: int| 0 <= j < buttons.len() ==> (#[trigger] a.mouse_buttons@[j]).button@ == buttons[j]
}

/// The names of the default actions.
pub open spec fn default_action_names() -> Set<Seq<char>> {
    set!["jump"@, "attack"@, "interact"@, "dash"@, "pause"@, "inventory"@]
}

/// The default actions, each with its bindings.
pub open spec fn has_default_actions(m: Map<Seq<char>, InputAction>) -> bool {
    &&& m.contains_key("jump"@) && binds(m["jump"@], "jump"@, seq![("Space"@, no_modifiers())], seq![])
    &&& m.contains_key("attack"@) && binds(m["attack"@], "attack"@, seq![("J"@, no_modifiers())], seq!["left"@])
    &&& m.contains_key("interact"@) && binds(m["interact"@], "interact"@, seq![("E"@, no_modifiers())], seq![])
    &&& m.contains_key("dash"@) && binds(
        m["dash"@],
        "dash"@,
        seq![("K"@, no_modifiers()), ("Space"@, shift_only())],
        seq![],
    )
    &&& m.contains_key("pause"@) && binds(m["pause"@], "pause"@, seq![("Escape"@, no_modifiers())], seq![])
    &&& m.contains_key("inventory"@) && binds(
        m["inventory"@],
        "inventory"@,
        seq![("I"@, no_modifiers()), ("Tab"@, no_modifiers())],
        seq![],
    )
}

/// An action bound to one key, with the given modifiers, and no mouse button.
fn action_with(name: &str, key: &str, modifiers: InputModifiers) -> (a: InputAction)
    ensures
        binds(a, name@, seq![(key@, modifiers)], seq![]),
{
    let mut keys: Vec<KeyBinding> = Vec::new();
    keys.push(KeyBinding { key: key.to_owned(), modifiers });
    InputAction { name: name.to_owned(), keys, mouse_buttons: Vec::new() }
}

/// The keys that the default bindings name.
proof fn lemma_default_key_names()
    ensures
        key_named("Space"@) == Some(Key::Space),
        key_named("J"@) == Some(Key::J),
        key_named("E"@) == Some(Key::E),
        key_named("K"@) == Some(Key::K),
        key_named("Escape"@) == Some(Key::Escape),
        key_named("I"@) == Some(Key::I),
        key_named("Tab"@) == Some(Key::Tab),
        button_named("left"@) == Some(MouseButton::Primary),
{
    law_each_key_has_its_name(Key::Space);
    law_each_key_has_its_name(Key::J);
    law_each_key_has_its_name(Key::E);
    law_each_key_has_its_name(Key::K);
    law_each_key_has_its_name(Key::Escape);
    law_each_key_has_its_name(Key::I);
    law_each_key_has_its_name(Key::Tab);
    reveal_strlit("left");
}

/// Law (the default bindings fire as documented): with the default actions,
/// Space fires jump (Enter does not); J or the left button fires attack; E
/// fires interact; K, or Space with Shift held, fires dash (Space alone does
/// not); Escape fires pause; I or Tab fires inventory.
pub proof fn law_default_bindings(m: Map<Seq<char>, InputAction>)
    requires
        has_default_actions(m),
    ensures
        action_fires(m["jump"@], set![Key::Space], Set::empty(), no_modifiers()),
        !action_fires(m["jump"@], set![Key::Enter], Set::empty(), no_modifiers()),
        action_fires(m["attack"@], set![Key::J], Set::empty(), no_modifiers()),
        action_fires(m["attack"@], Set::empty(), set![MouseButton::Primary], no_modifiers()),
        action_fires(m["interact"@], set![Key::E], Set::empty(), no_modifiers()),
        action_fires(m["dash"@], set![Key::K], Set::empty(), no_modifiers()),
        action_fires(m["dash"@], set![Key::Space], Set::empty(), shift_only()),
        !action_fires(m["dash"@], set![Key::Space], Set::empty(), no_modifiers()),
        action_fires(m["pause"@], set![Key::Escape], Set::empty(), no_modifiers()),
        action_fires(m["inventory"@], set![Key::I], Set::empty(), no_modifiers()),
        action_fires(m["inventory"@], set![Key::Tab], Set::empty(), no_modifiers()),
{
    lemma_default_key_names();
    let none = no_modifiers();
    assert(key_binding_fires(m["jump"@].keys@[0], set![Key::Space], none));
    assert(key_binding_fires(m["attack"@].keys@[0], set![Key::J], none));
    assert(mouse_binding_fires(m["attack"@].mouse_buttons@[0], set![MouseButton::Primary]));
    assert(key_binding_fires(m["interact"@].keys@[0], set![Key::E], none));
    assert(key_binding_fires(m["dash"@].keys@[0], set![Key::K], none));
    assert(key_binding_fires(m["dash"@].keys@[1], set![Key::Space], shift_only()));
    assert(key_binding_fires(m["pause"@].keys@[0], set![Key::Escape], none));
    assert(key_binding_fires(m["inventory"@].keys@[0], set![Key::I], none));
    assert(key_binding_fires(m["inventory"@].keys@[1], set![Key::Tab], none));
    assert(!key_binding_fires(m["jump"@].keys@[0], set![Key::Enter], none));
    assert(!key_binding_fires(m["dash"@].keys@[0], set![Key::Space], none));
    assert(!key_binding_fires(m["dash"@].keys@[1], set![Key::Space], none));
}

/// Adds `x` to the set that `v` holds; true when it was not there.
fn add_key(v: &mut Vec<Key>, x: Key) -> (added: bool)
    ensures
        added == !old(v)@.contains(x),
        final(v)@.to_set() == old(v)@.to_set().insert(x),
{
    let mut i: usize = 0;
    while i < v.len()
        invariant
            i <= v@.len(),
            v@ == old(v)@,
            forall|j: int| 0 <= j < i ==> v@[j] != x,
        decreases v@.len() - i,
    {
        if v[i] == x {
            assert(v@[i as int] == x);
            assert(v@.to_set() =~= old(v)@.to_set().insert(x));
            return false;
        }
        i = i + 1;
    }
    v.push(x);
    assert(v@.to_set() =~= old(v)@.to_set().insert(x)) by {
        assert forall|y: Key| #[trigger] v@.contains(y) implies old(v)@.contains(y) || y == x by {
            let j = choose|j: int| 0 <= j < v@.len() && v@[j] == y;
            if j < old(v)@.len() {
                assert(old(v)@[j] == y);
            }
        }
        assert forall|y: Key| old(v)@.contains(y) implies #[trigger] v@.contains(y) by {
            let j = choose|j: int| 0 <= j < old(v)@.len() && old(v)@[j] == y;
            assert(v@[j] == y);
        }
        assert(v@[v@.len() - 1] == x);
    }
    true
}

/// Takes `x` out of the set that `v` holds; true when it was there.
fn remove_key(v: &mut Vec<Key>, x: Key) -> (removed: bool)
    ensures
        removed == old(v)@.contains(x),
        final(v)@.to_set() == old(v)@.to_set().remove(x),
{
    let mut kept: Vec<Key> = Vec::new();
    let mut removed = false;
    let mut i: usize = 0;
    while i < v.len()
        invariant
            i <= v@.len(),
            v@ == old(v)@,
            removed == (exists|j: int| 0 <= j < i && v@[j] == x),
            forall|y: Key| #[trigger] kept@.contains(y) <==> (y != x && exists|j: int| 0 <= j < i && v@[j] == y),
        decreases v@.len() - i,
    {
        let y = v[i];
        if y == x {
            removed = true;
        } else {
            let ghost before = kept@;
            kept.push(y);
            assert forall|z: Key| #[trigger] kept@.contains(z) <==> (z != x && exists|j: int| 0 <= j < i + 1 && v@[j] == z) by {
                if kept@.contains(z) {
                    let k = choose|k: int| 0 <= k < kept@.len() && kept@[k] == z;
                    if k < before.len() {
                        assert(before[k] == z);
                        assert(before.contains(z));
                    } else {
                        assert(v@[i as int] == z);
                    }
                }
                if z != x && exists|j: int| 0 <= j < i + 1 && v@[j] == z {
                    let j = choose|j: int| 0 <= j < i + 1 && v@[j] == z;
                    if j < i {
                        assert(before.contains(z));
                        let k = choose|k: int| 0 <= k < before.len() && before[k] == z;
                        assert(kept@[k] == z);
                    } else {
                        assert(kept@[kept@.len() - 1] == z);
                    }
                }
            }
        }
        assert(removed == (exists|j: int| 0 <= j < i + 1 && v@[j] == x)) by {
            if removed && !(exists|j: int| 0 <= j < i && v@[j] == x) {
                assert(v@[i as int] == x);
            }
        }
        i = i + 1;
    }
    assert(kept@.to_set() =~= old(v)@.to_set().remove(x));
    *v = kept;
    removed
}

/// Adds `x` to the set that `v` holds; true when it was not there.
fn add_button(v: &mut Vec<MouseButton>, x: MouseButton) -> (added: bool)
    ensures
        added == !old(v)@.contains(x),
        final(v)@.to_set() == old(v)@.to_set().insert(x),
{
    let mut i: usize = 0;
    while i < v.len()
        invariant
            i <= v@.len(),
            v@ == old(v)@,
            forall|j: int| 0 <= j < i ==> v@[j] != x,
        decreases v@.len() - i,
    {
        if v[i] == x {
            assert(v@[i as int] == x);
            assert(v@.to_set() =~= old(v)@.to_set().insert(x));
            return false;
        }
        i = i + 1;
    }
    v.push(x);
    assert(v@.to_set() =~= old(v)@.to_set().insert(x)) by {
        assert forall|y: MouseButton| #[trigger] v@.contains(y) implies old(v)@.contains(y) || y == x by {
            let j = choose|j: int| 0 <= j < v@.len() && v@[j] == y;
            if j < old(v)@.len() {
                assert(old(v)@[j] == y);
            }
        }
        assert forall|y: MouseButton| old(v)@.contains(y) implies #[trigger] v@.contains(y) by {
            let j = choose|j: int| 0 <= j < old(v)@.len() && old(v)@[j] == y;
            assert(v@[j] == y);
        }
        assert(v@[v@.len() - 1] == x);
    }
    true
}

/// Takes `x` out of the set that `v` holds; true when it was there.
fn remove_button(v: &mut Vec<MouseButton>, x: MouseButton) -> (removed: bool)
    ensures
        removed == old(v)@.contains(x),
        final(v)@.to_set() == old(v)@.to_set().remove(x),
{
    let mut kept: Vec<MouseButton> = Vec::new();
    let mut removed = false;
    let mut i: usize = 0;
    while i < v.len()
        invariant
            i <= v@.len(),
            v@ == old(v)@,
            removed == (exists|j: int| 0 <= j < i && v@[j] == x),
            forall|y: MouseButton| #[trigger] kept@.contains(y) <==> (y != x && exists|j: int| 0 <= j < i && v@[j] == y),
        decreases v@.len() - i,
    {
        let y = v[i];
        if y == x {
            removed = true;
        } else {
            let ghost before = kept@;
            kept.push(y);
            assert forall|z: MouseButton| #[trigger] kept@.contains(z) <==> (z != x && exists|j: int| 0 <= j < i + 1 && v@[j] == z) by {
                if kept@.contains(z) {
                    let k = choose|k: int| 0 <= k < kept@.len() && kept@[k] == z;
                    if k < before.len() {
                        assert(before[k] == z);
                        assert(before.contains(z));
                    } else {
                        assert(v@[i as int] == z);
                    }
                }
                if z != x && exists|j: int| 0 <= j < i + 1 && v@[j] == z {
                    let j = choose|j: int| 0 <= j < i + 1 && v@[j] == z;
                    if j < i {
                        assert(before.contains(z));
                        let k = choose|k: int| 0 <= k < before.len() && before[k] == z;
                        assert(kept@[k] == z);
                    } else {
                        assert(kept@[kept@.len() - 1] == z);
                    }
                }
            }
        }
        assert(removed == (exists|j: int| 0 <= j < i + 1 && v@[j] == x)) by {
            if removed && !(exists|j: int| 0 <= j < i && v@[j] == x) {
                assert(v@[i as int] == x);
            }
        }
        i = i + 1;
    }
    assert(kept@.to_set() =~= old(v)@.to_set().remove(x));
    *v = kept;
    removed
}

/// A change of one key or mouse button, as the window reports it.
#[derive(Debug, Clone, Copy, PartialEq, Eq, Structural)]
pub enum InputEvent {
    Key { key: Key, pressed: bool },
    Button { button: MouseButton, pressed: bool },
}

/// Which keys and mouse buttons are held, and which were pressed or released
/// since the frame began.
pub struct InputState {
    keys_down: Vec<Key>,
    keys_pressed: Vec<Key>,
    keys_released: Vec<Key>,
    buttons_down: Vec<MouseButton>,
    buttons_pressed: Vec<MouseButton>,
    buttons_released: Vec<MouseButton>,
}

impl InputState {
    /// The keys held.
    pub closed spec fn down(&self) -> Set<Key> {
        self.keys_down@.to_set()
    }

    /// The keys pressed this frame.
    pub closed spec fn pressed(&self) -> Set<Key> {
        self.keys_pressed@.to_set()
    }

    /// The keys released this frame.
    pub closed spec fn released(&self) -> Set<Key> {
        self.keys_released@.to_set()
    }

    /// The mouse buttons held.
    pub closed spec fn buttons_down(&self) -> Set<MouseButton> {
        self.buttons_down@.to_set()
    }

    /// The mouse buttons pressed this frame.
    pub closed spec fn buttons_pressed(&self) -> Set<MouseButton> {
        self.buttons_pressed@.to_set()
    }

    /// The mouse buttons released this frame.
    pub closed spec fn buttons_released(&self) -> Set<MouseButton> {
        self.buttons_released@.to_set()
    }

    /// Nothing held, pressed or released.
    pub fn new() -> (st: Self)
        ensures
            st.down() == Set::<Key>::empty(),
            st.pressed() == Set::<Key>::empty(),
            st.released() == Set::<Key>::empty(),
            st.buttons_down() == Set::<MouseButton>::empty(),
            st.buttons_pressed() == Set::<MouseButton>::empty(),
            st.buttons_released() == Set::<MouseButton>::empty(),
    {
        let st = InputState {
            keys_down: Vec::new(),
            keys_pressed: Vec::new(),
            keys_released: Vec::new(),
            buttons_down: Vec::new(),
            buttons_pressed: Vec::new(),
            buttons_released: Vec::new(),
        };
        assert(st.down() =~= Set::<Key>::empty());
        assert(st.pressed() =~= Set::<Key>::empty());
        assert(st.released() =~= Set::<Key>::empty());
        assert(st.buttons_down() =~= Set::<MouseButton>::empty());
        assert(st.buttons_pressed() =~= Set::<MouseButton>::empty());
        assert(st.buttons_released() =~= Set::<MouseButton>::empty());
        st
    }

    /// Starts a frame: the presses and releases of the last frame are
    /// forgotten; what is held stays held.
    pub fn begin_frame(&mut self)
        ensures
            final(self).pressed() == Set::<Key>::empty(),
            final(self).released() == Set::<Key>::empty(),
            final(self).down() == old(self).down(),
            final(self).buttons_pressed() == Set::<MouseButton>::empty(),
            final(self).buttons_released() == Set::<MouseButton>::empty(),
            final(self).buttons_down() == old(self).buttons_down(),
    {
        self.keys_pressed.clear();
        self.keys_released.clear();
        self.buttons_pressed.clear();
        self.buttons_released.clear();
        assert(self.pressed() =~= Set::<Key>::empty());
        assert(self.released() =~= Set::<Key>::empty());
        assert(self.buttons_pressed() =~= Set::<MouseButton>::empty());
        assert(self.buttons_released() =~= Set::<MouseButton>::empty());
    }

    /// Records one event. A press of a key that is not held makes it held and
    /// pressed; a release of a held key makes it released and no longer held;
    /// a press of a held key or a release of a key not held changes nothing
    /// else. Mouse buttons go the same way.
    pub fn apply(&mut self, e: InputEvent)
        ensures
            match e {
                InputEvent::Key { key, pressed: true } => {
                    &&& final(self).down() == old(self).down().insert(key)
                    &&& final(self).pressed() == (if old(self).down().contains(key) {
                        old(self).pressed()
                    } else {
                        old(self).pressed().insert(key)
                    })
                    &&& final(self).released() == old(self).released()
                    &&& final(self).buttons_down() == old(self).buttons_down()
                    &&& final(self).buttons_pressed() == old(self).buttons_pressed()
                    &&& final(self).buttons_released() == old(self).buttons_released()
                },
                InputEvent::Key { key, pressed: false } => {
                    &&& final(self).down() == old(self).down().remove(key)
                    &&& final(self).released() == (if old(self).down().contains(key) {
                        old(self).released().insert(key)
                    } else {
                        old(self).released()
                    })
                    &&& final(self).pressed() == old(self).pressed()
                    &&& final(self).buttons_down() == old(self).buttons_down()
                    &&& final(self).buttons_pressed() == old(self).buttons_pressed()
                    &&& final(self).buttons_released() == old(self).buttons_released()
                },
                InputEvent::Button { button, pressed: true } => {
                    &&& final(self).buttons_down() == old(self).buttons_down().insert(button)
                    &&& final(self).buttons_pressed() == (if old(self).buttons_down().contains(button) {
                        old(self).buttons_pressed()
                    } else {
                        old(self).buttons_pressed().insert(button)
                    })
                    &&& final(self).buttons_released() == old(self).buttons_released()
                    &&& final(self).down() == old(self).down()
                    &&& final(self).pressed() == old(self).pressed()
                    &&& final(self).released() == old(self).released()
                },
                InputEvent::Button { button, pressed: false } => {
                    &&& final(self).buttons_down() == old(self).buttons_down().remove(button)
                    &&& final(self).buttons_released() == (if old(self).buttons_down().contains(button) {
                        old(self).buttons_released().insert(button)
                    } else {
                        old(self).buttons_released()
                    })
                    &&& final(self).buttons_pressed() == old(self).buttons_pressed()
                    &&& final(self).down() == old(self).down()
                    &&& final(self).pressed() == old(self).pressed()
                    &&& final(self).released() == old(self).released()
                },
            },
    {
        match e {
            InputEvent::Key { key, pressed } => {
                if pressed {
                    if add_key(&mut self.keys_down, key) {
                        add_key(&mut self.keys_pressed, key);
                    }
                } else {
                    if remove_key(&mut self.keys_down, key) {
                        add_key(&mut self.keys_released, key);
                    }
                }
            },
            InputEvent::Button { button, pressed } => {
                if pressed {
                    if add_button(&mut self.buttons_down, button) {
                        add_button(&mut self.buttons_pressed, button);
                    }
                } else {
                    if remove_button(&mut self.buttons_down, button) {
                        add_button(&mut self.buttons_released, button);
                    }
                }
            },
        }
    }

    pub fn is_key_down(&self, key: Key) -> (b: bool)
        ensures
            b == self.down().contains(key),
    {
        contains_key(self.keys_down.as_slice(), key)
    }

    pub fn is_key_pressed(&self, key: Key) -> (b: bool)
        ensures
            b == self.pressed().contains(key),
    {
        contains_key(self.keys_pressed.as_slice(), key)
    }

    pub fn is_key_released(&self, key: Key) -> (b: bool)
        ensures
            b == self.released().contains(key),
    {
        contains_key(self.keys_released.as_slice(), key)
    }

    pub fn is_button_down(&self, button: MouseButton) -> (b: bool)
        ensures
            b == self.buttons_down().contains(button),
    {
        contains_button(self.buttons_down.as_slice(), button)
    }

    pub fn is_button_pressed(&self, button: MouseButton) -> (b: bool)
        ensures
            b == self.buttons_pressed().contains(button),
    {
        contains_button(self.buttons_pressed.as_slice(), button)
    }

    pub fn is_button_released(&self, button: MouseButton) -> (b: bool)
        ensures
            b == self.buttons_released().contains(button),
    {
        contains_button(self.buttons_released.as_slice(), button)
    }

    /// Whether the action `name` was triggered this frame: registered, and one
    /// of its bindings fires on the keys and buttons pressed this frame.
    pub fn is_action_pressed(&self, bindings: &InputBindings, name: &str, held: InputModifiers) -> (r: bool)
        ensures
            r == (bindings.actions().contains_key(name@) && action_fires(
                bindings.actions()[name@],
                self.pressed(),
                self.buttons_pressed(),
                held,
            )),
    {
        bindings.is_action_triggered(name, self.keys_pressed.as_slice(), self.buttons_pressed.as_slice(), held)
    }

    /// Whether the action `name` is held: registered, and one of its bindings
    /// fires on the keys and buttons held.
    pub fn is_action_down(&self, bindings: &InputBindings, name: &str, held: InputModifiers) -> (r: bool)
        ensures
            r == (bindings.actions().contains_key(name@) && action_fires(
                bindings.actions()[name@],
                self.down(),
                self.buttons_down(),
                held,
            )),
    {
        bindings.is_action_triggered(name, self.keys_down.as_slice(), self.buttons_down.as_slice(), held)
    }
}

/// The characters of each key name.
proof fn lemma_key_name_contents()
    ensures
        key_names() == seq![
            seq!['F', '1', '2'],
            seq!['F', '1', '1'],
            seq!['F', '1', '0'],
            seq!['F', '9'],
            seq!['F', '8'],
            seq!['F', '7'],
            seq!['F', '6'],
            seq!['F', '5'],
            seq!['F', '4'],
            seq!['F', '3'],
            seq!['F', '2'],
            seq!['F', '1'],
            seq!['A', 'r', 'r', 'o', 'w', 'R', 'i', 'g', 'h', 't'],
            seq!['A', 'r', 'r', 'o', 'w', 'L', 'e', 'f', 't'],
            seq!['A', 'r', 'r', 'o', 'w', 'D', 'o', 'w', 'n'],
            seq!['A', 'r', 'r', 'o', 'w', 'U', 'p'],
            seq!['B', 'a', 'c', 'k', 's', 'p', 'a', 'c', 'e'],
            seq!['T', 'a', 'b'],
            seq!['E', 's', 'c', 'a', 'p', 'e'],
            seq!['E', 'n', 't', 'e', 'r'],
            seq!['S', 'p', 'a', 'c', 'e'],
            seq!['9'],
            seq!['8'],
            seq!['7'],
            seq!['6'],
            seq!['5'],
            seq!['4'],
            seq!['3'],
            seq!['2'],
            seq!['1'],
            seq!['0'],
            seq!['Z'],
            seq!['Y'],
            seq!['X'],
            seq!['W'],
            seq!['V'],
            seq!['U'],
            seq!['T'],
            seq!['S'],
            seq!['R'],
            seq!['Q'],
            seq!['P'],
            seq!['O'],
            seq!['N'],
            seq!['M'],
            seq!['L'],
            seq!['K'],
            seq!['J'],
            seq!['I'],
            seq!['H'],
            seq!['G'],
            seq!['F'],
            seq!['E'],
            seq!['D'],
            seq!['C'],
            seq!['B'],
            seq!['A']
        ],
{
    reveal_strlit("F12");
    reveal_strlit("F11");
    reveal_strlit("F10");
    reveal_strlit("F9");
    reveal_strlit("F8");
    reveal_strlit("F7");
    reveal_strlit("F6");
    reveal_strlit("F5");
    reveal_strlit("F4");
    reveal_strlit("F3");
    reveal_strlit("F2");
    reveal_strlit("F1");
    reveal_strlit("ArrowRight");
    reveal_strlit("ArrowLeft");
    reveal_strlit("ArrowDown");
    reveal_strlit("ArrowUp");
    reveal_strlit("Backspace");
    reveal_strlit("Tab");
    reveal_strlit("Escape");
    reveal_strlit("Enter");
    reveal_strlit("Space");
    reveal_strlit("9");
    reveal_strlit("8");
    reveal_strlit("7");
    reveal_strlit("6");
    reveal_strlit("5");
    reveal_strlit("4");
    reveal_strlit("3");
    reveal_strlit("2");
    reveal_strlit("1");
    reveal_strlit("0");
    reveal_strlit("Z");
    reveal_strlit("Y");
    reveal_strlit("X");
    reveal_strlit("W");
    reveal_strlit("V");
    reveal_strlit("U");
    reveal_strlit("T");
    reveal_strlit("S");
    reveal_strlit("R");
    reveal_strlit("Q");
    reveal_strlit("P");
    reveal_strlit("O");
    reveal_strlit("N");
    reveal_strlit("M");
    reveal_strlit("L");
    reveal_strlit("K");
    reveal_strlit("J");
    reveal_strlit("I");
    reveal_strlit("H");
    reveal_strlit("G");
    reveal_strlit("F");
    reveal_strlit("E");
    reveal_strlit("D");
    reveal_strlit("C");
    reveal_strlit("B");
    reveal_strlit("A");
    assert(key_names()[0] =~= seq!['F', '1', '2']);
    assert(key_names()[1] =~= seq!['F', '1', '1']);
    assert(key_names()[2] =~= seq!['F', '1', '0']);
    assert(key_names()[3] =~= seq!['F', '9']);
    assert(key_names()[4] =~= seq!['F', '8']);
    assert(key_names()[5] =~= seq!['F', '7']);
    assert(key_names()[6] =~= seq!['F', '6']);
    assert(key_names()[7] =~= seq!['F', '5']);
    assert(key_names()[8] =~= seq!['F', '4']);
    assert(key_names()[9] =~= seq!['F', '3']);
    assert(key_names()[10] =~= seq!['F', '2']);
    assert(key_names()[11] =~= seq!['F', '1']);
    assert(key_names()[12] =~= seq!['A', 'r', 'r', 'o', 'w', 'R', 'i', 'g', 'h', 't']);
    assert(key_names()[13] =~= seq!['A', 'r', 'r', 'o', 'w', 'L', 'e', 'f', 't']);
    assert(key_names()[14] =~= seq!['A', 'r', 'r', 'o', 'w', 'D', 'o', 'w', 'n']);
    assert(key_names()[15] =~= seq!['A', 'r', 'r', 'o', 'w', 'U', 'p']);
    assert(key_names()[16] =~= seq!['B', 'a', 'c', 'k', 's', 'p', 'a', 'c', 'e']);
    assert(key_names()[17] =~= seq!['T', 'a', 'b']);
    assert(key_names()[18] =~= seq!['E', 's', 'c', 'a', 'p', 'e']);
    assert(key_names()[19] =~= seq!['E', 'n', 't', 'e', 'r']);
    assert(key_names()[20] =~= seq!['S', 'p', 'a', 'c', 'e']);
    assert(key_names()[21] =~= seq!['9']);
    assert(key_names()[22] =~= seq!['8']);
    assert(key_names()[23] =~= seq!['7']);
    assert(key_names()[24] =~= seq!['6']);
    assert(key_names()[25] =~= seq!['5']);
    assert(key_names()[26] =~= seq!['4']);
    assert(key_names()[27] =~= seq!['3']);
    assert(key_names()[28] =~= seq!['2']);
    assert(key_names()[29] =~= seq!['1']);
    assert(key_names()[30] =~= seq!['0']);
    assert(key_names()[31] =~= seq!['Z']);
    assert(key_names()[32] =~= seq!['Y']);
    assert(key_names()[33] =~= seq!['X']);
    assert(key_names()[34] =~= seq!['W']);
    assert(key_names()[35] =~= seq!['V']);
    assert(key_names()[36] =~= seq!['U']);
    assert(key_names()[37] =~= seq!['T']);
    assert(key_names()[38] =~= seq!['S']);
    assert(key_names()[39] =~= seq!['R']);
    assert(key_names()[40] =~= seq!['Q']);
    assert(key_names()[41] =~= seq!['P']);
    assert(key_names()[42] =~= seq!['O']);
    assert(key_names()[43] =~= seq!['N']);
    assert(key_names()[44] =~= seq!['M']);
    assert(key_names()[45] =~= seq!['L']);
    assert(key_names()[46] =~= seq!['K']);
    assert(key_names()[47] =~= seq!['J']);
    assert(key_names()[48] =~= seq!['I']);
    assert(key_names()[49] =~= seq!['H']);
    assert(key_names()[50] =~= seq!['G']);
    assert(key_names()[51] =~= seq!['F']);
    assert(key_names()[52] =~= seq!['E']);
    assert(key_names()[53] =~= seq!['D']);
    assert(key_names()[54] =~= seq!['C']);
    assert(key_names()[55] =~= seq!['B']);
    assert(key_names()[56] =~= seq!['A']);
    assert(key_names() =~= seq![
        seq!['F', '1', '2'],
        seq!['F', '1', '1'],
        seq!['F', '1', '0'],
        seq!['F', '9'],
        seq!['F', '8'],
        seq!['F', '7'],
        seq!['F', '6'],
        seq!['F', '5'],
        seq!['F', '4'],
        seq!['F', '3'],
        seq!['F', '2'],
        seq!['F', '1'],
        seq!['A', 'r', 'r', 'o', 'w', 'R', 'i', 'g', 'h', 't'],
        seq!['A', 'r', 'r', 'o', 'w', 'L', 'e', 'f', 't'],
        seq!['A', 'r', 'r', 'o', 'w', 'D', 'o', 'w', 'n'],
        seq!['A', 'r', 'r', 'o', 'w', 'U', 'p'],
        seq!['B', 'a', 'c', 'k', 's', 'p', 'a', 'c', 'e'],
        seq!['T', 'a', 'b'],
        seq!['E', 's', 'c', 'a', 'p', 'e'],
        seq!['E', 'n', 't', 'e', 'r'],
        seq!['S', 'p', 'a', 'c', 'e'],
        seq!['9'],
        seq!['8'],
        seq!['7'],
        seq!['6'],
        seq!['5'],
        seq!['4'],
        seq!['3'],
        seq!['2'],
        seq!['1'],
        seq!['0'],
        seq!['Z'],
        seq!['Y'],
        seq!['X'],
        seq!['W'],
        seq!['V'],
        seq!['U'],
        seq!['T'],
        seq!['S'],
        seq!['R'],
        seq!['Q'],
        seq!['P'],
        seq!['O'],
        seq!['N'],
        seq!['M'],
        seq!['L'],
        seq!['K'],
        seq!['J'],
        seq!['I'],
        seq!['H'],
        seq!['G'],
        seq!['F'],
        seq!['E'],
        seq!['D'],
        seq!['C'],
        seq!['B'],
        seq!['A']
    ]);
}

proof fn lemma_letter_names()
    ensures
        forall|k: Key| 31 <= key_index(k) < 57 ==> #[trigger] key_named(key_name(k)) == Some(k),
{
    lemma_key_name_contents();
    assert("B"@[0] != "A"@[0]);
    assert("C"@[0] != "A"@[0]);
    assert("C"@[0] != "B"@[0]);
    assert("D"@[0] != "A"@[0]);
    assert("D"@[0] != "B"@[0]);
    assert("D"@[0] != "C"@[0]);
    assert("E"@[0] != "A"@[0]);
    assert("E"@[0] != "B"@[0]);
    assert("E"@[0] != "C"@[0]);
    assert("E"@[0] != "D"@[0]);
    assert("F"@[0] != "A"@[0]);
    assert("F"@[0] != "B"@[0]);
    assert("F"@[0] != "C"@[0]);
    assert("F"@[0] != "D"@[0]);
    assert("F"@[0] != "E"@[0]);
    assert("G"@[0] != "A"@[0]);
    assert("G"@[0] != "B"@[0]);
    assert("G"@[0] != "C"@[0]);
    assert("G"@[0] != "D"@[0]);
    assert("G"@[0] != "E"@[0]);
    assert("G"@[0] != "F"@[0]);
    assert("H"@[0] != "A"@[0]);
    assert("H"@[0] != "B"@[0]);
    assert("H"@[0] != "C"@[0]);
    assert("H"@[0] != "D"@[0]);
    assert("H"@[0] != "E"@[0]);
    assert("H"@[0] != "F"@[0]);
    assert("H"@[0] != "G"@[0]);
    assert("I"@[0] != "A"@[0]);
    assert("I"@[0] != "B"@[0]);
    assert("I"@[0] != "C"@[0]);
    assert("I"@[0] != "D"@[0]);
    assert("I"@[0] != "E"@[0]);
    assert("I"@[0] != "F"@[0]);
    assert("I"@[0] != "G"@[0]);
    assert("I"@[0] != "H"@[0]);
    assert("J"@[0] != "A"@[0]);
    assert("J"@[0] != "B"@[0]);
    assert("J"@[0] != "C"@[0]);
    assert("J"@[0] != "D"@[0]);
    assert("J"@[0] != "E"@[0]);
    assert("J"@[0] != "F"@[0]);
    assert("J"@[0] != "G"@[0]);
    assert("J"@[0] != "H"@[0]);
    assert("J"@[0] != "I"@[0]);
    assert("K"@[0] != "A"@[0]);
    assert("K"@[0] != "B"@[0]);
    assert("K"@[0] != "C"@[0]);
    assert("K"@[0] != "D"@[0]);
    assert("K"@[0] != "E"@[0]);
    assert("K"@[0] != "F"@[0]);
    assert("K"@[0] != "G"@[0]);
    assert("K"@[0] != "H"@[0]);
    assert("K"@[0] != "I"@[0]);
    assert("K"@[0] != "J"@[0]);
    assert("L"@[0] != "A"@[0]);
    assert("L"@[0] != "B"@[0]);
    assert("L"@[0] != "C"@[0]);
    assert("L"@[0] != "D"@[0]);
    assert("L"@[0] != "E"@[0]);
    assert("L"@[0] != "F"@[0]);
    assert("L"@[0] != "G"@[0]);
    assert("L"@[0] != "H"@[0]);
    assert("L"@[0] != "I"@[0]);
    assert("L"@[0] != "J"@[0]);
    assert("L"@[0] != "K"@[0]);
    assert("M"@[0] != "A"@[0]);
    assert("M"@[0] != "B"@[0]);
    assert("M"@[0] != "C"@[0]);
    assert("M"@[0] != "D"@[0]);
    assert("M"@[0] != "E"@[0]);
    assert("M"@[0] != "F"@[0]);
    assert("M"@[0] != "G"@[0]);
    assert("M"@[0] != "H"@[0]);
    assert("M"@[0] != "I"@[0]);
    assert("M"@[0] != "J"@[0]);
    assert("M"@[0] != "K"@[0]);
    assert("M"@[0] != "L"@[0]);
    assert("N"@[0] != "A"@[0]);
    assert("N"@[0] != "B"@[0]);
    assert("N"@[0] != "C"@[0]);
    assert("N"@[0] != "D"@[0]);
    assert("N"@[0] != "E"@[0]);
    assert("N"@[0] != "F"@[0]);
    assert("N"@[0] != "G"@[0]);
    assert("N"@[0] != "H"@[0]);
    assert("N"@[0] != "I"@[0]);
    assert("N"@[0] != "J"@[0]);
    assert("N"@[0] != "K"@[0]);
    assert("N"@[0] != "L"@[0]);
    assert("N"@[0] != "M"@[0]);
    assert("O"@[0] != "A"@[0]);
    assert("O"@[0] != "B"@[0]);
    assert("O"@[0] != "C"@[0]);
    assert("O"@[0] != "D"@[0]);
    assert("O"@[0] != "E"@[0]);
    assert("O"@[0] != "F"@[0]);
    assert("O"@[0] != "G"@[0]);
    assert("O"@[0] != "H"@[0]);
    assert("O"@[0] != "I"@[0]);
    assert("O"@[0] != "J"@[0]);
    assert("O"@[0] != "K"@[0]);
    assert("O"@[0] != "L"@[0]);
    assert("O"@[0] != "M"@[0]);
    assert("O"@[0] != "N"@[0]);
    assert("P"@[0] != "A"@[0]);
    assert("P"@[0] != "B"@[0]);
    assert("P"@[0] != "C"@[0]);
    assert("P"@[0] != "D"@[0]);
    assert("P"@[0] != "E"@[0]);
    assert("P"@[0] != "F"@[0]);
    assert("P"@[0] != "G"@[0]);
    assert("P"@[0] != "H"@[0]);
    assert("P"@[0] != "I"@[0]);
    assert("P"@[0] != "J"@[0]);
    assert("P"@[0] != "K"@[0]);
    assert("P"@[0] != "L"@[0]);
    assert("P"@[0] != "M"@[0]);
    assert("P"@[0] != "N"@[0]);
    assert("P"@[0] != "O"@[0]);
    assert("Q"@[0] != "A"@[0]);
    assert("Q"@[0] != "B"@[0]);
    assert("Q"@[0] != "C"@[0]);
    assert("Q"@[0] != "D"@[0]);
    assert("Q"@[0] != "E"@[0]);
    assert("Q"@[0] != "F"@[0]);
    assert("Q"@[0] != "G"@[0]);
    assert("Q"@[0] != "H"@[0]);
    assert("Q"@[0] != "I"@[0]);
    assert("Q"@[0] != "J"@[0]);
    assert("Q"@[0] != "K"@[0]);
    assert("Q"@[0] != "L"@[0]);
    assert("Q"@[0] != "M"@[0]);
    assert("Q"@[0] != "N"@[0]);
    assert("Q"@[0] != "O"@[0]);
    assert("Q"@[0] != "P"@[0]);
    assert("R"@[0] != "A"@[0]);
    assert("R"@[0] != "B"@[0]);
    assert("R"@[0] != "C"@[0]);
    assert("R"@[0] != "D"@[0]);
    assert("R"@[0] != "E"@[0]);
    assert("R"@[0] != "F"@[0]);
    assert("R"@[0] != "G"@[0]);
    assert("R"@[0] != "H"@[0]);
    assert("R"@[0] != "I"@[0]);
    assert("R"@[0] != "J"@[0]);
    assert("R"@[0] != "K"@[0]);
    assert("R"@[0] != "L"@[0]);
    assert("R"@[0] != "M"@[0]);
    assert("R"@[0] != "N"@[0]);
    assert("R"@[0] != "O"@[0]);
    assert("R"@[0] != "P"@[0]);
    assert("R"@[0] != "Q"@[0]);
    assert("S"@[0] != "A"@[0]);
    assert("S"@[0] != "B"@[0]);
    assert("S"@[0] != "C"@[0]);
    assert("S"@[0] != "D"@[0]);
    assert("S"@[0] != "E"@[0]);
    assert("S"@[0] != "F"@[0]);
    assert("S"@[0] != "G"@[0]);
    assert("S"@[0] != "H"@[0]);
    assert("S"@[0] != "I"@[0]);
    assert("S"@[0] != "J"@[0]);
    assert("S"@[0] != "K"@[0]);
    assert("S"@[0] != "L"@[0]);
    assert("S"@[0] != "M"@[0]);
    assert("S"@[0] != "N"@[0]);
    assert("S"@[0] != "O"@[0]);
    assert("S"@[0] != "P"@[0]);
    assert("S"@[0] != "Q"@[0]);
    assert("S"@[0] != "R"@[0]);
    assert("T"@[0] != "A"@[0]);
    assert("T"@[0] != "B"@[0]);
    assert("T"@[0] != "C"@[0]);
    assert("T"@[0] != "D"@[0]);
    assert("T"@[0] != "E"@[0]);
    assert("T"@[0] != "F"@[0]);
    assert("T"@[0] != "G"@[0]);
    assert("T"@[0] != "H"@[0]);
    assert("T"@[0] != "I"@[0]);
    assert("T"@[0] != "J"@[0]);
    assert("T"@[0] != "K"@[0]);
    assert("T"@[0] != "L"@[0]);
    assert("T"@[0] != "M"@[0]);
    assert("T"@[0] != "N"@[0]);
    assert("T"@[0] != "O"@[0]);
    assert("T"@[0] != "P"@[0]);
    assert("T"@[0] != "Q"@[0]);
    assert("T"@[0] != "R"@[0]);
    assert("T"@[0] != "S"@[0]);
    assert("U"@[0] != "A"@[0]);
    assert("U"@[0] != "B"@[0]);
    assert("U"@[0] != "C"@[0]);
    assert("U"@[0] != "D"@[0]);
    assert("U"@[0] != "E"@[0]);
    assert("U"@[0] != "F"@[0]);
    assert("U"@[0] != "G"@[0]);
    assert("U"@[0] != "H"@[0]);
    assert("U"@[0] != "I"@[0]);
    assert("U"@[0] != "J"@[0]);
    assert("U"@[0] != "K"@[0]);
    assert("U"@[0] != "L"@[0]);
    assert("U"@[0] != "M"@[0]);
    assert("U"@[0] != "N"@[0]);
    assert("U"@[0] != "O"@[0]);
    assert("U"@[0] != "P"@[0]);
    assert("U"@[0] != "Q"@[0]);
    assert("U"@[0] != "R"@[0]);
    assert("U"@[0] != "S"@[0]);
    assert("U"@[0] != "T"@[0]);
    assert("V"@[0] != "A"@[0]);
    assert("V"@[0] != "B"@[0]);
    assert("V"@[0] != "C"@[0]);
    assert("V"@[0] != "D"@[0]);
    assert("V"@[0] != "E"@[0]);
    assert("V"@[0] != "F"@[0]);
    assert("V"@[0] != "G"@[0]);
    assert("V"@[0] != "H"@[0]);
    assert("V"@[0] != "I"@[0]);
    assert("V"@[0] != "J"@[0]);
    assert("V"@[0] != "K"@[0]);
    assert("V"@[0] != "L"@[0]);
    assert("V"@[0] != "M"@[0]);
    assert("V"@[0] != "N"@[0]);
    assert("V"@[0] != "O"@[0]);
    assert("V"@[0] != "P"@[0]);
    assert("V"@[0] != "Q"@[0]);
    assert("V"@[0] != "R"@[0]);
    assert("V"@[0] != "S"@[0]);
    assert("V"@[0] != "T"@[0]);
    assert("V"@[0] != "U"@[0]);
    assert("W"@[0] != "A"@[0]);
    assert("W"@[0] != "B"@[0]);
    assert("W"@[0] != "C"@[0]);
    assert("W"@[0] != "D"@[0]);
    assert("W"@[0] != "E"@[0]);
    assert("W"@[0] != "F"@[0]);
    assert("W"@[0] != "G"@[0]);
    assert("W"@[0] != "H"@[0]);
    assert("W"@[0] != "I"@[0]);
    assert("W"@[0] != "J"@[0]);
    assert("W"@[0] != "K"@[0]);
    assert("W"@[0] != "L"@[0]);
    assert("W"@[0] != "M"@[0]);
    assert("W"@[0] != "N"@[0]);
    assert("W"@[0] != "O"@[0]);
    assert("W"@[0] != "P"@[0]);
    assert("W"@[0] != "Q"@[0]);
    assert("W"@[0] != "R"@[0]);
    assert("W"@[0] != "S"@[0]);
    assert("W"@[0] != "T"@[0]);
    assert("W"@[0] != "U"@[0]);
    assert("W"@[0] != "V"@[0]);
    assert("X"@[0] != "A"@[0]);
    assert("X"@[0] != "B"@[0]);
    assert("X"@[0] != "C"@[0]);
    assert("X"@[0] != "D"@[0]);
    assert("X"@[0] != "E"@[0]);
    assert("X"@[0] != "F"@[0]);
    assert("X"@[0] != "G"@[0]);
    assert("X"@[0] != "H"@[0]);
    assert("X"@[0] != "I"@[0]);
    assert("X"@[0] != "J"@[0]);
    assert("X"@[0] != "K"@[0]);
    assert("X"@[0] != "L"@[0]);
    assert("X"@[0] != "M"@[0]);
    assert("X"@[0] != "N"@[0]);
    assert("X"@[0] != "O"@[0]);
    assert("X"@[0] != "P"@[0]);
    assert("X"@[0] != "Q"@[0]);
    assert("X"@[0] != "R"@[0]);
    assert("X"@[0] != "S"@[0]);
    assert("X"@[0] != "T"@[0]);
    assert("X"@[0] != "U"@[0]);
    assert("X"@[0] != "V"@[0]);
    assert("X"@[0] != "W"@[0]);
    assert("Y"@[0] != "A"@[0]);
    assert("Y"@[0] != "B"@[0]);
    assert("Y"@[0] != "C"@[0]);
    assert("Y"@[0] != "D"@[0]);
    assert("Y"@[0] != "E"@[0]);
    assert("Y"@[0] != "F"@[0]);
    assert("Y"@[0] != "G"@[0]);
    assert("Y"@[0] != "H"@[0]);
    assert("Y"@[0] != "I"@[0]);
    assert("Y"@[0] != "J"@[0]);
    assert("Y"@[0] != "K"@[0]);
    assert("Y"@[0] != "L"@[0]);
    assert("Y"@[0] != "M"@[0]);
    assert("Y"@[0] != "N"@[0]);
    assert("Y"@[0] != "O"@[0]);
    assert("Y"@[0] != "P"@[0]);
    assert("Y"@[0] != "Q"@[0]);
    assert("Y"@[0] != "R"@[0]);
    assert("Y"@[0] != "S"@[0]);
    assert("Y"@[0] != "T"@[0]);
    assert("Y"@[0] != "U"@[0]);
    assert("Y"@[0] != "V"@[0]);
    assert("Y"@[0] != "W"@[0]);
    assert("Y"@[0] != "X"@[0]);
    assert("Z"@[0] != "A"@[0]);
    assert("Z"@[0] != "B"@[0]);
    assert("Z"@[0] != "C"@[0]);
    assert("Z"@[0] != "D"@[0]);
    assert("Z"@[0] != "E"@[0]);
    assert("Z"@[0] != "F"@[0]);
    assert("Z"@[0] != "G"@[0]);
    assert("Z"@[0] != "H"@[0]);
    assert("Z"@[0] != "I"@[0]);
    assert("Z"@[0] != "J"@[0]);
    assert("Z"@[0] != "K"@[0]);
    assert("Z"@[0] != "L"@[0]);
    assert("Z"@[0] != "M"@[0]);
    assert("Z"@[0] != "N"@[0]);
    assert("Z"@[0] != "O"@[0]);
    assert("Z"@[0] != "P"@[0]);
    assert("Z"@[0] != "Q"@[0]);
    assert("Z"@[0] != "R"@[0]);
    assert("Z"@[0] != "S"@[0]);
    assert("Z"@[0] != "T"@[0]);
    assert("Z"@[0] != "U"@[0]);
    assert("Z"@[0] != "V"@[0]);
    assert("Z"@[0] != "W"@[0]);
    assert("Z"@[0] != "X"@[0]);
    assert("Z"@[0] != "Y"@[0]);
    assert forall|k: Key| 31 <= key_index(k) < 57 implies #[trigger] key_named(key_name(k)) == Some(k) by {
        match k {
            Key::Z => {},
            Key::Y => {},
            Key::X => {},
            Key::W => {},
            Key::V => {},
            Key::U => {},
            Key::T => {},
            Key::S => {},
            Key::R => {},
            Key::Q => {},
            Key::P => {},
            Key::O => {},
            Key::N => {},
            Key::M => {},
            Key::L => {},
            Key::K => {},
            Key::J => {},
            Key::I => {},
            Key::H => {},
            Key::G => {},
            Key::F => {},
            Key::E => {},
            Key::D => {},
            Key::C => {},
            Key::B => {},
            Key::A => {},
            _ => {},
        }
    }
}

proof fn lemma_digit_names()
    ensures
        forall|k: Key| 21 <= key_index(k) < 31 ==> #[trigger] key_named(key_name(k)) == Some(k),
{
    lemma_key_name_contents();
    assert("0"@[0] != "A"@[0]);
    assert("0"@[0] != "B"@[0]);
    assert("0"@[0] != "C"@[0]);
    assert("0"@[0] != "D"@[0]);
    assert("0"@[0] != "E"@[0]);
    assert("0"@[0] != "F"@[0]);
    assert("0"@[0] != "G"@[0]);
    assert("0"@[0] != "H"@[0]);
    assert("0"@[0] != "I"@[0]);
    assert("0"@[0] != "J"@[0]);
    assert("0"@[0] != "K"@[0]);
    assert("0"@[0] != "L"@[0]);
    assert("0"@[0] != "M"@[0]);
    assert("0"@[0] != "N"@[0]);
    assert("0"@[0] != "O"@[0]);
    assert("0"@[0] != "P"@[0]);
    assert("0"@[0] != "Q"@[0]);
    assert("0"@[0] != "R"@[0]);
    assert("0"@[0] != "S"@[0]);
    assert("0"@[0] != "T"@[0]);
    assert("0"@[0] != "U"@[0]);
    assert("0"@[0] != "V"@[0]);
    assert("0"@[0] != "W"@[0]);
    assert("0"@[0] != "X"@[0]);
    assert("0"@[0] != "Y"@[0]);
    assert("0"@[0] != "Z"@[0]);
    assert("1"@[0] != "A"@[0]);
    assert("1"@[0] != "B"@[0]);
    assert("1"@[0] != "C"@[0]);
    assert("1"@[0] != "D"@[0]);
    assert("1"@[0] != "E"@[0]);
    assert("1"@[0] != "F"@[0]);
    assert("1"@[0] != "G"@[0]);
    assert("1"@[0] != "H"@[0]);
    assert("1"@[0] != "I"@[0]);
    assert("1"@[0] != "J"@[0]);
    assert("1"@[0] != "K"@[0]);
    assert("1"@[0] != "L"@[0]);
    assert("1"@[0] != "M"@[0]);
    assert("1"@[0] != "N"@[0]);
    assert("1"@[0] != "O"@[0]);
    assert("1"@[0] != "P"@[0]);
    assert("1"@[0] != "Q"@[0]);
    assert("1"@[0] != "R"@[0]);
    assert("1"@[0] != "S"@[0]);
    assert("1"@[0] != "T"@[0]);
    assert("1"@[0] != "U"@[0]);
    assert("1"@[0] != "V"@[0]);
    assert("1"@[0] != "W"@[0]);
    assert("1"@[0] != "X"@[0]);
    assert("1"@[0] != "Y"@[0]);
    assert("1"@[0] != "Z"@[0]);
    assert("1"@[0] != "0"@[0]);
    assert("2"@[0] != "A"@[0]);
    assert("2"@[0] != "B"@[0]);
    assert("2"@[0] != "C"@[0]);
    assert("2"@[0] != "D"@[0]);
    assert("2"@[0] != "E"@[0]);
    assert("2"@[0] != "F"@[0]);
    assert("2"@[0] != "G"@[0]);
    assert("2"@[0] != "H"@[0]);
    assert("2"@[0] != "I"@[0]);
    assert("2"@[0] != "J"@[0]);
    assert("2"@[0] != "K"@[0]);
    assert("2"@[0] != "L"@[0]);
    assert("2"@[0] != "M"@[0]);
    assert("2"@[0] != "N"@[0]);
    assert("2"@[0] != "O"@[0]);
    assert("2"@[0] != "P"@[0]);
    assert("2"@[0] != "Q"@[0]);
    assert("2"@[0] != "R"@[0]);
    assert("2"@[0] != "S"@[0]);
    assert("2"@[0] != "T"@[0]);
    assert("2"@[0] != "U"@[0]);
    assert("2"@[0] != "V"@[0]);
    assert("2"@[0] != "W"@[0]);
    assert("2"@[0] != "X"@[0]);
    assert("2"@[0] != "Y"@[0]);
    assert("2"@[0] != "Z"@[0]);
    assert("2"@[0] != "0"@[0]);
    assert("2"@[0] != "1"@[0]);
    assert("3"@[0] != "A"@[0]);
    assert("3"@[0] != "B"@[0]);
    assert("3"@[0] != "C"@[0]);
    assert("3"@[0] != "D"@[0]);
    assert("3"@[0] != "E"@[0]);
    assert("3"@[0] != "F"@[0]);
    assert("3"@[0] != "G"@[0]);
    assert("3"@[0] != "H"@[0]);
    assert("3"@[0] != "I"@[0]);
    assert("3"@[0] != "J"@[0]);
    assert("3"@[0] != "K"@[0]);
    assert("3"@[0] != "L"@[0]);
    assert("3"@[0] != "M"@[0]);
    assert("3"@[0] != "N"@[0]);
    assert("3"@[0] != "O"@[0]);
    assert("3"@[0] != "P"@[0]);
    assert("3"@[0] != "Q"@[0]);
    assert("3"@[0] != "R"@[0]);
    assert("3"@[0] != "S"@[0]);
    assert("3"@[0] != "T"@[0]);
    assert("3"@[0] != "U"@[0]);
    assert("3"@[0] != "V"@[0]);
    assert("3"@[0] != "W"@[0]);
    assert("3"@[0] != "X"@[0]);
    assert("3"@[0] != "Y"@[0]);
    assert("3"@[0] != "Z"@[0]);
    assert("3"@[0] != "0"@[0]);
    assert("3"@[0] != "1"@[0]);
    assert("3"@[0] != "2"@[0]);
    assert("4"@[0] != "A"@[0]);
    assert("4"@[0] != "B"@[0]);
    assert("4"@[0] != "C"@[0]);
    assert("4"@[0] != "D"@[0]);
    assert("4"@[0] != "E"@[0]);
    assert("4"@[0] != "F"@[0]);
    assert("4"@[0] != "G"@[0]);
    assert("4"@[0] != "H"@[0]);
    assert("4"@[0] != "I"@[0]);
    assert("4"@[0] != "J"@[0]);
    assert("4"@[0] != "K"@[0]);
    assert("4"@[0] != "L"@[0]);
    assert("4"@[0] != "M"@[0]);
    assert("4"@[0] != "N"@[0]);
    assert("4"@[0] != "O"@[0]);
    assert("4"@[0] != "P"@[0]);
    assert("4"@[0] != "Q"@[0]);
    assert("4"@[0] != "R"@[0]);
    assert("4"@[0] != "S"@[0]);
    assert("4"@[0] != "T"@[0]);
    assert("4"@[0] != "U"@[0]);
    assert("4"@[0] != "V"@[0]);
    assert("4"@[0] != "W"@[0]);
    assert("4"@[0] != "X"@[0]);
    assert("4"@[0] != "Y"@[0]);
    assert("4"@[0] != "Z"@[0]);
    assert("4"@[0] != "0"@[0]);
    assert("4"@[0] != "1"@[0]);
    assert("4"@[0] != "2"@[0]);
    assert("4"@[0] != "3"@[0]);
    assert("5"@[0] != "A"@[0]);
    assert("5"@[0] != "B"@[0]);
    assert("5"@[0] != "C"@[0]);
    assert("5"@[0] != "D"@[0]);
    assert("5"@[0] != "E"@[0]);
    assert("5"@[0] != "F"@[0]);
    assert("5"@[0] != "G"@[0]);
    assert("5"@[0] != "H"@[0]);
    assert("5"@[0] != "I"@[0]);
    assert("5"@[0] != "J"@[0]);
    assert("5"@[0] != "K"@[0]);
    assert("5"@[0] != "L"@[0]);
    assert("5"@[0] != "M"@[0]);
    assert("5"@[0] != "N"@[0]);
    assert("5"@[0] != "O"@[0]);
    assert("5"@[0] != "P"@[0]);
    assert("5"@[0] != "Q"@[0]);
    assert("5"@[0] != "R"@[0]);
    assert("5"@[0] != "S"@[0]);
    assert("5"@[0] != "T"@[0]);
    assert("5"@[0] != "U"@[0]);
    assert("5"@[0] != "V"@[0]);
    assert("5"@[0] != "W"@[0]);
    assert("5"@[0] != "X"@[0]);
    assert("5"@[0] != "Y"@[0]);
    assert("5"@[0] != "Z"@[0]);
    assert("5"@[0] != "0"@[0]);
    assert("5"@[0] != "1"@[0]);
    assert("5"@[0] != "2"@[0]);
    assert("5"@[0] != "3"@[0]);
    assert("5"@[0] != "4"@[0]);
    assert("6"@[0] != "A"@[0]);
    assert("6"@[0] != "B"@[0]);
    assert("6"@[0] != "C"@[0]);
    assert("6"@[0] != "D"@[0]);
    assert("6"@[0] != "E"@[0]);
    assert("6"@[0] != "F"@[0]);
    assert("6"@[0] != "G"@[0]);
    assert("6"@[0] != "H"@[0]);
    assert("6"@[0] != "I"@[0]);
    assert("6"@[0] != "J"@[0]);
    assert("6"@[0] != "K"@[0]);
    assert("6"@[0] != "L"@[0]);
    assert("6"@[0] != "M"@[0]);
    assert("6"@[0] != "N"@[0]);
    assert("6"@[0] != "O"@[0]);
    assert("6"@[0] != "P"@[0]);
    assert("6"@[0] != "Q"@[0]);
    assert("6"@[0] != "R"@[0]);
    assert("6"@[0] != "S"@[0]);
    assert("6"@[0] != "T"@[0]);
    assert("6"@[0] != "U"@[0]);
    assert("6"@[0] != "V"@[0]);
    assert("6"@[0] != "W"@[0]);
    assert("6"@[0] != "X"@[0]);
    assert("6"@[0] != "Y"@[0]);
    assert("6"@[0] != "Z"@[0]);
    assert("6"@[0] != "0"@[0]);
    assert("6"@[0] != "1"@[0]);
    assert("6"@[0] != "2"@[0]);
    assert("6"@[0] != "3"@[0]);
    assert("6"@[0] != "4"@[0]);
    assert("6"@[0] != "5"@[0]);
    assert("7"@[0] != "A"@[0]);
    assert("7"@[0] != "B"@[0]);
    assert("7"@[0] != "C"@[0]);
    assert("7"@[0] != "D"@[0]);
    assert("7"@[0] != "E"@[0]);
    assert("7"@[0] != "F"@[0]);
    assert("7"@[0] != "G"@[0]);
    assert("7"@[0] != "H"@[0]);
    assert("7"@[0] != "I"@[0]);
    assert("7"@[0] != "J"@[0]);
    assert("7"@[0] != "K"@[0]);
    assert("7"@[0] != "L"@[0]);
    assert("7"@[0] != "M"@[0]);
    assert("7"@[0] != "N"@[0]);
    assert("7"@[0] != "O"@[0]);
    assert("7"@[0] != "P"@[0]);
    assert("7"@[0] != "Q"@[0]);
    assert("7"@[0] != "R"@[0]);
    assert("7"@[0] != "S"@[0]);
    assert("7"@[0] != "T"@[0]);
    assert("7"@[0] != "U"@[0]);
    assert("7"@[0] != "V"@[0]);
    assert("7"@[0] != "W"@[0]);
    assert("7"@[0] != "X"@[0]);
    assert("7"@[0] != "Y"@[0]);
    assert("7"@[0] != "Z"@[0]);
    assert("7"@[0] != "0"@[0]);
    assert("7"@[0] != "1"@[0]);
    assert("7"@[0] != "2"@[0]);
    assert("7"@[0] != "3"@[0]);
    assert("7"@[0] != "4"@[0]);
    assert("7"@[0] != "5"@[0]);
    assert("7"@[0] != "6"@[0]);
    assert("8"@[0] != "A"@[0]);
    assert("8"@[0] != "B"@[0]);
    assert("8"@[0] != "C"@[0]);
    assert("8"@[0] != "D"@[0]);
    assert("8"@[0] != "E"@[0]);
    assert("8"@[0] != "F"@[0]);
    assert("8"@[0] != "G"@[0]);
    assert("8"@[0] != "H"@[0]);
    assert("8"@[0] != "I"@[0]);
    assert("8"@[0] != "J"@[0]);
    assert("8"@[0] != "K"@[0]);
    assert("8"@[0] != "L"@[0]);
    assert("8"@[0] != "M"@[0]);
    assert("8"@[0] != "N"@[0]);
    assert("8"@[0] != "O"@[0]);
    assert("8"@[0] != "P"@[0]);
    assert("8"@[0] != "Q"@[0]);
    assert("8"@[0] != "R"@[0]);
    assert("8"@[0] != "S"@[0]);
    assert("8"@[0] != "T"@[0]);
    assert("8"@[0] != "U"@[0]);
    assert("8"@[0] != "V"@[0]);
    assert("8"@[0] != "W"@[0]);
    assert("8"@[0] != "X"@[0]);
    assert("8"@[0] != "Y"@[0]);
    assert("8"@[0] != "Z"@[0]);
    assert("8"@[0] != "0"@[0]);
    assert("8"@[0] != "1"@[0]);
    assert("8"@[0] != "2"@[0]);
    assert("8"@[0] != "3"@[0]);
    assert("8"@[0] != "4"@[0]);
    assert("8"@[0] != "5"@[0]);
    assert("8"@[0] != "6"@[0]);
    assert("8"@[0] != "7"@[0]);
    assert("9"@[0] != "A"@[0]);
    assert("9"@[0] != "B"@[0]);
    assert("9"@[0] != "C"@[0]);
    assert("9"@[0] != "D"@[0]);
    assert("9"@[0] != "E"@[0]);
    assert("9"@[0] != "F"@[0]);
    assert("9"@[0] != "G"@[0]);
    assert("9"@[0] != "H"@[0]);
    assert("9"@[0] != "I"@[0]);
    assert("9"@[0] != "J"@[0]);
    assert("9"@[0] != "K"@[0]);
    assert("9"@[0] != "L"@[0]);
    assert("9"@[0] != "M"@[0]);
    assert("9"@[0] != "N"@[0]);
    assert("9"@[0] != "O"@[0]);
    assert("9"@[0] != "P"@[0]);
    assert("9"@[0] != "Q"@[0]);
    assert("9"@[0] != "R"@[0]);
    assert("9"@[0] != "S"@[0]);
    assert("9"@[0] != "T"@[0]);
    assert("9"@[0] != "U"@[0]);
    assert("9"@[0] != "V"@[0]);
    assert("9"@[0] != "W"@[0]);
    assert("9"@[0] != "X"@[0]);
    assert("9"@[0] != "Y"@[0]);
    assert("9"@[0] != "Z"@[0]);
    assert("9"@[0] != "0"@[0]);
    assert("9"@[0] != "1"@[0]);
    assert("9"@[0] != "2"@[0]);
    assert("9"@[0] != "3"@[0]);
    assert("9"@[0] != "4"@[0]);
    assert("9"@[0] != "5"@[0]);
    assert("9"@[0] != "6"@[0]);
    assert("9"@[0] != "7"@[0]);
    assert("9"@[0] != "8"@[0]);
    assert forall|k: Key| 21 <= key_index(k) < 31 implies #[trigger] key_named(key_name(k)) == Some(k) by {
        match k {
            Key::Num9 => {},
            Key::Num8 => {},
            Key::Num7 => {},
            Key::Num6 => {},
            Key::Num5 => {},
            Key::Num4 => {},
            Key::Num3 => {},
            Key::Num2 => {},
            Key::Num1 => {},
            Key::Num0 => {},
            _ => {},
        }
    }
}

proof fn lemma_special_key_names()
    ensures
        forall|k: Key| 12 <= key_index(k) < 21 ==> #[trigger] key_named(key_name(k)) == Some(k),
{
    lemma_key_name_contents();
    assert("Space"@.len() != "A"@.len());
    assert("Space"@.len() != "B"@.len());
    assert("Space"@.len() != "C"@.len());
    assert("Space"@.len() != "D"@.len());
    assert("Space"@.len() != "E"@.len());
    assert("Space"@.len() != "F"@.len());
    assert("Space"@.len() != "G"@.len());
    assert("Space"@.len() != "H"@.len());
    assert("Space"@.len() != "I"@.len());
    assert("Space"@.len() != "J"@.len());
    assert("Space"@.len() != "K"@.len());
    assert("Space"@.len() != "L"@.len());
    assert("Space"@.len() != "M"@.len());
    assert("Space"@.len() != "N"@.len());
    assert("Space"@.len() != "O"@.len());
    assert("Space"@.len() != "P"@.len());
    assert("Space"@.len() != "Q"@.len());
    assert("Space"@.len() != "R"@.len());
    assert("Space"@.len() != "S"@.len());
    assert("Space"@.len() != "T"@.len());
    assert("Space"@.len() != "U"@.len());
    assert("Space"@.len() != "V"@.len());
    assert("Space"@.len() != "W"@.len());
    assert("Space"@.len() != "X"@.len());
    assert("Space"@.len() != "Y"@.len());
    assert("Space"@.len() != "Z"@.len());
    assert("Space"@.len() != "0"@.len());
    assert("Space"@.len() != "1"@.len());
    assert("Space"@.len() != "2"@.len());
    assert("Space"@.len() != "3"@.len());
    assert("Space"@.len() != "4"@.len());
    assert("Space"@.len() != "5"@.len());
    assert("Space"@.len() != "6"@.len());
    assert("Space"@.len() != "7"@.len());
    assert("Space"@.len() != "8"@.len());
    assert("Space"@.len() != "9"@.len());
    assert("Enter"@.len() != "A"@.len());
    assert("Enter"@.len() != "B"@.len());
    assert("Enter"@.len() != "C"@.len());
    assert("Enter"@.len() != "D"@.len());
    assert("Enter"@.len() != "E"@.len());
    assert("Enter"@.len() != "F"@.len());
    assert("Enter"@.len() != "G"@.len());
    assert("Enter"@.len() != "H"@.len());
    assert("Enter"@.len() != "I"@.len());
    assert("Enter"@.len() != "J"@.len());
    assert("Enter"@.len() != "K"@.len());
    assert("Enter"@.len() != "L"@.len());
    assert("Enter"@.len() != "M"@.len());
    assert("Enter"@.len() != "N"@.len());
    assert("Enter"@.len() != "O"@.len());
    assert("Enter"@.len() != "P"@.len());
    assert("Enter"@.len() != "Q"@.len());
    assert("Enter"@.len() != "R"@.len());
    assert("Enter"@.len() != "S"@.len());
    assert("Enter"@.len() != "T"@.len());
    assert("Enter"@.len() != "U"@.len());
    assert("Enter"@.len() != "V"@.len());
    assert("Enter"@.len() != "W"@.len());
    assert("Enter"@.len() != "X"@.len());
    assert("Enter"@.len() != "Y"@.len());
    assert("Enter"@.len() != "Z"@.len());
    assert("Enter"@.len() != "0"@.len());
    assert("Enter"@.len() != "1"@.len());
    assert("Enter"@.len() != "2"@.len());
    assert("Enter"@.len() != "3"@.len());
    assert("Enter"@.len() != "4"@.len());
    assert("Enter"@.len() != "5"@.len());
    assert("Enter"@.len() != "6"@.len());
    assert("Enter"@.len() != "7"@.len());
    assert("Enter"@.len() != "8"@.len());
    assert("Enter"@.len() != "9"@.len());
    assert("Enter"@[0] != "Space"@[0]);
    assert("Escape"@.len() != "A"@.len());
    assert("Escape"@.len() != "B"@.len());
    assert("Escape"@.len() != "C"@.len());
    assert("Escape"@.len() != "D"@.len());
    assert("Escape"@.len() != "E"@.len());
    assert("Escape"@.len() != "F"@.len());
    assert("Escape"@.len() != "G"@.len());
    assert("Escape"@.len() != "H"@.len());
    assert("Escape"@.len() != "I"@.len());
    assert("Escape"@.len() != "J"@.len());
    assert("Escape"@.len() != "K"@.len());
    assert("Escape"@.len() != "L"@.len());
    assert("Escape"@.len() != "M"@.len());
    assert("Escape"@.len() != "N"@.len());
    assert("Escape"@.len() != "O"@.len());
    assert("Escape"@.len() != "P"@.len());
    assert("Escape"@.len() != "Q"@.len());
    assert("Escape"@.len() != "R"@.len());
    assert("Escape"@.len() != "S"@.len());
    assert("Escape"@.len() != "T"@.len());
    assert("Escape"@.len() != "U"@.len());
    assert("Escape"@.len() != "V"@.len());
    assert("Escape"@.len() != "W"@.len());
    assert("Escape"@.len() != "X"@.len());
    assert("Escape"@.len() != "Y"@.len());
    assert("Escape"@.len() != "Z"@.len());
    assert("Escape"@.len() != "0"@.len());
    assert("Escape"@.len() != "1"@.len());
    assert("Escape"@.len() != "2"@.len());
    assert("Escape"@.len() != "3"@.len());
    assert("Escape"@.len() != "4"@.len());
    assert("Escape"@.len() != "5"@.len());
    assert("Escape"@.len() != "6"@.len());
    assert("Escape"@.len() != "7"@.len());
    assert("Escape"@.len() != "8"@.len());
    assert("Escape"@.len() != "9"@.len());
    assert("Escape"@.len() != "Space"@.len());
    assert("Escape"@.len() != "Enter"@.len());
    assert("Tab"@.len() != "A"@.len());
    assert("Tab"@.len() != "B"@.len());
    assert("Tab"@.len() != "C"@.len());
    assert("Tab"@.len() != "D"@.len());
    assert("Tab"@.len() != "E"@.len());
    assert("Tab"@.len() != "F"@.len());
    assert("Tab"@.len() != "G"@.len());
    assert("Tab"@.len() != "H"@.len());
    assert("Tab"@.len() != "I"@.len());
    assert("Tab"@.len() != "J"@.len());
    assert("Tab"@.len() != "K"@.len());
    assert("Tab"@.len() != "L"@.len());
    assert("Tab"@.len() != "M"@.len());
    assert("Tab"@.len() != "N"@.len());
    assert("Tab"@.len() != "O"@.len());
    assert("Tab"@.len() != "P"@.len());
    assert("Tab"@.len() != "Q"@.len());
    assert("Tab"@.len() != "R"@.len());
    assert("Tab"@.len() != "S"@.len());
    assert("Tab"@.len() != "T"@.len());
    assert("Tab"@.len() != "U"@.len());
    assert("Tab"@.len() != "V"@.len());
    assert("Tab"@.len() != "W"@.len());
    assert("Tab"@.len() != "X"@.len());
    assert("Tab"@.len() != "Y"@.len());
    assert("Tab"@.len() != "Z"@.len());
    assert("Tab"@.len() != "0"@.len());
    assert("Tab"@.len() != "1"@.len());
    assert("Tab"@.len() != "2"@.len());
    assert("Tab"@.len() != "3"@.len());
    assert("Tab"@.len() != "4"@.len());
    assert("Tab"@.len() != "5"@.len());
    assert("Tab"@.len() != "6"@.len());
    assert("Tab"@.len() != "7"@.len());
    assert("Tab"@.len() != "8"@.len());
    assert("Tab"@.len() != "9"@.len());
    assert("Tab"@.len() != "Space"@.len());
    assert("Tab"@.len() != "Enter"@.len());
    assert("Tab"@.len() != "Escape"@.len());
    assert("Backspace"@.len() != "A"@.len());
    assert("Backspace"@.len() != "B"@.len());
    assert("Backspace"@.len() != "C"@.len());
    assert("Backspace"@.len() != "D"@.len());
    assert("Backspace"@.len() != "E"@.len());
    assert("Backspace"@.len() != "F"@.len());
    assert("Backspace"@.len() != "G"@.len());
    assert("Backspace"@.len() != "H"@.len());
    assert("Backspace"@.len() != "I"@.len());
    assert("Backspace"@.len() != "J"@.len());
    assert("Backspace"@.len() != "K"@.len());
    assert("Backspace"@.len() != "L"@.len());
    assert("Backspace"@.len() != "M"@.len());
    assert("Backspace"@.len() != "N"@.len());
    assert("Backspace"@.len() != "O"@.len());
    assert("Backspace"@.len() != "P"@.len());
    assert("Backspace"@.len() != "Q"@.len());
    assert("Backspace"@.len() != "R"@.len());
    assert("Backspace"@.len() != "S"@.len());
    assert("Backspace"@.len() != "T"@.len());
    assert("Backspace"@.len() != "U"@.len());
    assert("Backspace"@.len() != "V"@.len());
    assert("Backspace"@.len() != "W"@.len());
    assert("Backspace"@.len() != "X"@.len());
    assert("Backspace"@.len() != "Y"@.len());
    assert("Backspace"@.len() != "Z"@.len());
    assert("Backspace"@.len() != "0"@.len());
    assert("Backspace"@.len() != "1"@.len());
    assert("Backspace"@.len() != "2"@.len());
    assert("Backspace"@.len() != "3"@.len());
    assert("Backspace"@.len() != "4"@.len());
    assert("Backspace"@.len() != "5"@.len());
    assert("Backspace"@.len() != "6"@.len());
    assert("Backspace"@.len() != "7"@.len());
    assert("Backspace"@.len() != "8"@.len());
    assert("Backspace"@.len() != "9"@.len());
    assert("Backspace"@.len() != "Space"@.len());
    assert("Backspace"@.len() != "Enter"@.len());
    assert("Backspace"@.len() != "Escape"@.len());
    assert("Backspace"@.len() != "Tab"@.len());
    assert("ArrowUp"@.len() != "A"@.len());
    assert("ArrowUp"@.len() != "B"@.len());
    assert("ArrowUp"@.len() != "C"@.len());
    assert("ArrowUp"@.len() != "D"@.len());
    assert("ArrowUp"@.len() != "E"@.len());
    assert("ArrowUp"@.len() != "F"@.len());
    assert("ArrowUp"@.len() != "G"@.len());
    assert("ArrowUp"@.len() != "H"@.len());
    assert("ArrowUp"@.len() != "I"@.len());
    assert("ArrowUp"@.len() != "J"@.len());
    assert("ArrowUp"@.len() != "K"@.len());
    assert("ArrowUp"@.len() != "L"@.len());
    assert("ArrowUp"@.len() != "M"@.len());
    assert("ArrowUp"@.len() != "N"@.len());
    assert("ArrowUp"@.len() != "O"@.len());
    assert("ArrowUp"@.len() != "P"@.len());
    assert("ArrowUp"@.len() != "Q"@.len());
    assert("ArrowUp"@.len() != "R"@.len());
    assert("ArrowUp"@.len() != "S"@.len());
    assert("ArrowUp"@.len() != "T"@.len());
    assert("ArrowUp"@.len() != "U"@.len());
    assert("ArrowUp"@.len() != "V"@.len());
    assert("ArrowUp"@.len() != "W"@.len());
    assert("ArrowUp"@.len() != "X"@.len());
    assert("ArrowUp"@.len() != "Y"@.len());
    assert("ArrowUp"@.len() != "Z"@.len());
    assert("ArrowUp"@.len() != "0"@.len());
    assert("ArrowUp"@.len() != "1"@.len());
    assert("ArrowUp"@.len() != "2"@.len());
    assert("ArrowUp"@.len() != "3"@.len());
    assert("ArrowUp"@.len() != "4"@.len());
    assert("ArrowUp"@.len() != "5"@.len());
    assert("ArrowUp"@.len() != "6"@.len());
    assert("ArrowUp"@.len() != "7"@.len());
    assert("ArrowUp"@.len() != "8"@.len());
    assert("ArrowUp"@.len() != "9"@.len());
    assert("ArrowUp"@.len() != "Space"@.len());
    assert("ArrowUp"@.len() != "Enter"@.len());
    assert("ArrowUp"@.len() != "Escape"@.len());
    assert("ArrowUp"@.len() != "Tab"@.len());
    assert("ArrowUp"@.len() != "Backspace"@.len());
    assert("ArrowDown"@.len() != "A"@.len());
    assert("ArrowDown"@.len() != "B"@.len());
    assert("ArrowDown"@.len() != "C"@.len());
    assert("ArrowDown"@.len() != "D"@.len());
    assert("ArrowDown"@.len() != "E"@.len());
    assert("ArrowDown"@.len() != "F"@.len());
    assert("ArrowDown"@.len() != "G"@.len());
    assert("ArrowDown"@.len() != "H"@.len());
    assert("ArrowDown"@.len() != "I"@.len());
    assert("ArrowDown"@.len() != "J"@.len());
    assert("ArrowDown"@.len() != "K"@.len());
    assert("ArrowDown"@.len() != "L"@.len());
    assert("ArrowDown"@.len() != "M"@.len());
    assert("ArrowDown"@.len() != "N"@.len());
    assert("ArrowDown"@.len() != "O"@.len());
    assert("ArrowDown"@.len() != "P"@.len());
    assert("ArrowDown"@.len() != "Q"@.len());
    assert("ArrowDown"@.len() != "R"@.len());
    assert("ArrowDown"@.len() != "S"@.len());
    assert("ArrowDown"@.len() != "T"@.len());
    assert("ArrowDown"@.len() != "U"@.len());
    assert("ArrowDown"@.len() != "V"@.len());
    assert("ArrowDown"@.len() != "W"@.len());
    assert("ArrowDown"@.len() != "X"@.len());
    assert("ArrowDown"@.len() != "Y"@.len());
    assert("ArrowDown"@.len() != "Z"@.len());
    assert("ArrowDown"@.len() != "0"@.len());
    assert("ArrowDown"@.len() != "1"@.len());
    assert("ArrowDown"@.len() != "2"@.len());
    assert("ArrowDown"@.len() != "3"@.len());
    assert("ArrowDown"@.len() != "4"@.len());
    assert("ArrowDown"@.len() != "5"@.len());
    assert("ArrowDown"@.len() != "6"@.len());
    assert("ArrowDown"@.len() != "7"@.len());
    assert("ArrowDown"@.len() != "8"@.len());
    assert("ArrowDown"@.len() != "9"@.len());
    assert("ArrowDown"@.len() != "Space"@.len());
    assert("ArrowDown"@.len() != "Enter"@.len());
    assert("ArrowDown"@.len() != "Escape"@.len());
    assert("ArrowDown"@.len() != "Tab"@.len());
    assert("ArrowDown"@[0] != "Backspace"@[0]);
    assert("ArrowDown"@.len() != "ArrowUp"@.len());
    assert("ArrowLeft"@.len() != "A"@.len());
    assert("ArrowLeft"@.len() != "B"@.len());
    assert("ArrowLeft"@.len() != "C"@.len());
    assert("ArrowLeft"@.len() != "D"@.len());
    assert("ArrowLeft"@.len() != "E"@.len());
    assert("ArrowLeft"@.len() != "F"@.len());
    assert("ArrowLeft"@.len() != "G"@.len());
    assert("ArrowLeft"@.len() != "H"@.len());
    assert("ArrowLeft"@.len() != "I"@.len());
    assert("ArrowLeft"@.len() != "J"@.len());
    assert("ArrowLeft"@.len() != "K"@.len());
    assert("ArrowLeft"@.len() != "L"@.len());
    assert("ArrowLeft"@.len() != "M"@.len());
    assert("ArrowLeft"@.len() != "N"@.len());
    assert("ArrowLeft"@.len() != "O"@.len());
    assert("ArrowLeft"@.len() != "P"@.len());
    assert("ArrowLeft"@.len() != "Q"@.len());
    assert("ArrowLeft"@.len() != "R"@.len());
    assert("ArrowLeft"@.len() != "S"@.len());
    assert("ArrowLeft"@.len() != "T"@.len());
    assert("ArrowLeft"@.len() != "U"@.len());
    assert("ArrowLeft"@.len() != "V"@.len());
    assert("ArrowLeft"@.len() != "W"@.len());
    assert("ArrowLeft"@.len() != "X"@.len());
    assert("ArrowLeft"@.len() != "Y"@.len());
    assert("ArrowLeft"@.len() != "Z"@.len());
    assert("ArrowLeft"@.len() != "0"@.len());
    assert("ArrowLeft"@.len() != "1"@.len());
    assert("ArrowLeft"@.len() != "2"@.len());
    assert("ArrowLeft"@.len() != "3"@.len());
    assert("ArrowLeft"@.len() != "4"@.len());
    assert("ArrowLeft"@.len() != "5"@.len());
    assert("ArrowLeft"@.len() != "6"@.len());
    assert("ArrowLeft"@.len() != "7"@.len());
    assert("ArrowLeft"@.len() != "8"@.len());
    assert("ArrowLeft"@.len() != "9"@.len());
    assert("ArrowLeft"@.len() != "Space"@.len());
    assert("ArrowLeft"@.len() != "Enter"@.len());
    assert("ArrowLeft"@.len() != "Escape"@.len());
    assert("ArrowLeft"@.len() != "Tab"@.len());
    assert("ArrowLeft"@[0] != "Backspace"@[0]);
    assert("ArrowLeft"@.len() != "ArrowUp"@.len());
    assert("ArrowLeft"@[5] != "ArrowDown"@[5]);
    assert("ArrowRight"@.len() != "A"@.len());
    assert("ArrowRight"@.len() != "B"@.len());
    assert("ArrowRight"@.len() != "C"@.len());
    assert("ArrowRight"@.len() != "D"@.len());
    assert("ArrowRight"@.len() != "E"@.len());
    assert("ArrowRight"@.len() != "F"@.len());
    assert("ArrowRight"@.len() != "G"@.len());
    assert("ArrowRight"@.len() != "H"@.len());
    assert("ArrowRight"@.len() != "I"@.len());
    assert("ArrowRight"@.len() != "J"@.len());
    assert("ArrowRight"@.len() != "K"@.len());
    assert("ArrowRight"@.len() != "L"@.len());
    assert("ArrowRight"@.len() != "M"@.len());
    assert("ArrowRight"@.len() != "N"@.len());
    assert("ArrowRight"@.len() != "O"@.len());
    assert("ArrowRight"@.len() != "P"@.len());
    assert("ArrowRight"@.len() != "Q"@.len());
    assert("ArrowRight"@.len() != "R"@.len());
    assert("ArrowRight"@.len() != "S"@.len());
    assert("ArrowRight"@.len() != "T"@.len());
    assert("ArrowRight"@.len() != "U"@.len());
    assert("ArrowRight"@.len() != "V"@.len());
    assert("ArrowRight"@.len() != "W"@.len());
    assert("ArrowRight"@.len() != "X"@.len());
    assert("ArrowRight"@.len() != "Y"@.len());
    assert("ArrowRight"@.len() != "Z"@.len());
    assert("ArrowRight"@.len() != "0"@.len());
    assert("ArrowRight"@.len() != "1"@.len());
    assert("ArrowRight"@.len() != "2"@.len());
    assert("ArrowRight"@.len() != "3"@.len());
    assert("ArrowRight"@.len() != "4"@.len());
    assert("ArrowRight"@.len() != "5"@.len());
    assert("ArrowRight"@.len() != "6"@.len());
    assert("ArrowRight"@.len() != "7"@.len());
    assert("ArrowRight"@.len() != "8"@.len());
    assert("ArrowRight"@.len() != "9"@.len());
    assert("ArrowRight"@.len() != "Space"@.len());
    assert("ArrowRight"@.len() != "Enter"@.len());
    assert("ArrowRight"@.len() != "Escape"@.len());
    assert("ArrowRight"@.len() != "Tab"@.len());
    assert("ArrowRight"@.len() != "Backspace"@.len());
    assert("ArrowRight"@.len() != "ArrowUp"@.len());
    assert("ArrowRight"@.len() != "ArrowDown"@.len());
    assert("ArrowRight"@.len() != "ArrowLeft"@.len());
    assert forall|k: Key| 12 <= key_index(k) < 21 implies #[trigger] key_named(key_name(k)) == Some(k) by {
        match k {
            Key::ArrowRight => {},
            Key::ArrowLeft => {},
            Key::ArrowDown => {},
            Key::ArrowUp => {},
            Key::Backspace => {},
            Key::Tab => {},
            Key::Escape => {},
            Key::Enter => {},
            Key::Space => {},
            _ => {},
        }
    }
}

proof fn lemma_function_key_names()
    ensures
        forall|k: Key| 0 <= key_index(k) < 12 ==> #[trigger] key_named(key_name(k)) == Some(k),
{
    lemma_key_name_contents();
    assert("F1"@.len() != "A"@.len());
    assert("F1"@.len() != "B"@.len());
    assert("F1"@.len() != "C"@.len());
    assert("F1"@.len() != "D"@.len());
    assert("F1"@.len() != "E"@.len());
    assert("F1"@.len() != "F"@.len());
    assert("F1"@.len() != "G"@.len());
    assert("F1"@.len() != "H"@.len());
    assert("F1"@.len() != "I"@.len());
    assert("F1"@.len() != "J"@.len());
    assert("F1"@.len() != "K"@.len());
    assert("F1"@.len() != "L"@.len());
    assert("F1"@.len() != "M"@.len());
    assert("F1"@.len() != "N"@.len());
    assert("F1"@.len() != "O"@.len());
    assert("F1"@.len() != "P"@.len());
    assert("F1"@.len() != "Q"@.len());
    assert("F1"@.len() != "R"@.len());
    assert("F1"@.len() != "S"@.len());
    assert("F1"@.len() != "T"@.len());
    assert("F1"@.len() != "U"@.len());
    assert("F1"@.len() != "V"@.len());
    assert("F1"@.len() != "W"@.len());
    assert("F1"@.len() != "X"@.len());
    assert("F1"@.len() != "Y"@.len());
    assert("F1"@.len() != "Z"@.len());
    assert("F1"@.len() != "0"@.len());
    assert("F1"@.len() != "1"@.len());
    assert("F1"@.len() != "2"@.len());
    assert("F1"@.len() != "3"@.len());
    assert("F1"@.len() != "4"@.len());
    assert("F1"@.len() != "5"@.len());
    assert("F1"@.len() != "6"@.len());
    assert("F1"@.len() != "7"@.len());
    assert("F1"@.len() != "8"@.len());
    assert("F1"@.len() != "9"@.len());
    assert("F1"@.len() != "Space"@.len());
    assert("F1"@.len() != "Enter"@.len());
    assert("F1"@.len() != "Escape"@.len());
    assert("F1"@.len() != "Tab"@.len());
    assert("F1"@.len() != "Backspace"@.len());
    assert("F1"@.len() != "ArrowUp"@.len());
    assert("F1"@.len() != "ArrowDown"@.len());
    assert("F1"@.len() != "ArrowLeft"@.len());
    assert("F1"@.len() != "ArrowRight"@.len());
    assert("F2"@.len() != "A"@.len());
    assert("F2"@.len() != "B"@.len());
    assert("F2"@.len() != "C"@.len());
    assert("F2"@.len() != "D"@.len());
    assert("F2"@.len() != "E"@.len());
    assert("F2"@.len() != "F"@.len());
    assert("F2"@.len() != "G"@.len());
    assert("F2"@.len() != "H"@.len());
    assert("F2"@.len() != "I"@.len());
    assert("F2"@.len() != "J"@.len());
    assert("F2"@.len() != "K"@.len());
    assert("F2"@.len() != "L"@.len());
    assert("F2"@.len() != "M"@.len());
    assert("F2"@.len() != "N"@.len());
    assert("F2"@.len() != "O"@.len());
    assert("F2"@.len() != "P"@.len());
    assert("F2"@.len() != "Q"@.len());
    assert("F2"@.len() != "R"@.len());
    assert("F2"@.len() != "S"@.len());
    assert("F2"@.len() != "T"@.len());
    assert("F2"@.len() != "U"@.len());
    assert("F2"@.len() != "V"@.len());
    assert("F2"@.len() != "W"@.len());
    assert("F2"@.len() != "X"@.len());
    assert("F2"@.len() != "Y"@.len());
    assert("F2"@.len() != "Z"@.len());
    assert("F2"@.len() != "0"@.len());
    assert("F2"@.len() != "1"@.len());
    assert("F2"@.len() != "2"@.len());
    assert("F2"@.len() != "3"@.len());
    assert("F2"@.len() != "4"@.len());
    assert("F2"@.len() != "5"@.len());
    assert("F2"@.len() != "6"@.len());
    assert("F2"@.len() != "7"@.len());
    assert("F2"@.len() != "8"@.len());
    assert("F2"@.len() != "9"@.len());
    assert("F2"@.len() != "Space"@.len());
    assert("F2"@.len() != "Enter"@.len());
    assert("F2"@.len() != "Escape"@.len());
    assert("F2"@.len() != "Tab"@.len());
    assert("F2"@.len() != "Backspace"@.len());
    assert("F2"@.len() != "ArrowUp"@.len());
    assert("F2"@.len() != "ArrowDown"@.len());
    assert("F2"@.len() != "ArrowLeft"@.len());
    assert("F2"@.len() != "ArrowRight"@.len());
    assert("F2"@[1] != "F1"@[1]);
    assert("F3"@.len() != "A"@.len());
    assert("F3"@.len() != "B"@.len());
    assert("F3"@.len() != "C"@.len());
    assert("F3"@.len() != "D"@.len());
    assert("F3"@.len() != "E"@.len());
    assert("F3"@.len() != "F"@.len());
    assert("F3"@.len() != "G"@.len());
    assert("F3"@.len() != "H"@.len());
    assert("F3"@.len() != "I"@.len());
    assert("F3"@.len() != "J"@.len());
    assert("F3"@.len() != "K"@.len());
    assert("F3"@.len() != "L"@.len());
    assert("F3"@.len() != "M"@.len());
    assert("F3"@.len() != "N"@.len());
    assert("F3"@.len() != "O"@.len());
    assert("F3"@.len() != "P"@.len());
    assert("F3"@.len() != "Q"@.len());
    assert("F3"@.len() != "R"@.len());
    assert("F3"@.len() != "S"@.len());
    assert("F3"@.len() != "T"@.len());
    assert("F3"@.len() != "U"@.len());
    assert("F3"@.len() != "V"@.len());
    assert("F3"@.len() != "W"@.len());
    assert("F3"@.len() != "X"@.len());
    assert("F3"@.len() != "Y"@.len());
    assert("F3"@.len() != "Z"@.len());
    assert("F3"@.len() != "0"@.len());
    assert("F3"@.len() != "1"@.len());
    assert("F3"@.len() != "2"@.len());
    assert("F3"@.len() != "3"@.len());
    assert("F3"@.len() != "4"@.len());
    assert("F3"@.len() != "5"@.len());
    assert("F3"@.len() != "6"@.len());
    assert("F3"@.len() != "7"@.len());
    assert("F3"@.len() != "8"@.len());
    assert("F3"@.len() != "9"@.len());
    assert("F3"@.len() != "Space"@.len());
    assert("F3"@.len() != "Enter"@.len());
    assert("F3"@.len() != "Escape"@.len());
    assert("F3"@.len() != "Tab"@.len());
    assert("F3"@.len() != "Backspace"@.len());
    assert("F3"@.len() != "ArrowUp"@.len());
    assert("F3"@.len() != "ArrowDown"@.len());
    assert("F3"@.len() != "ArrowLeft"@.len());
    assert("F3"@.len() != "ArrowRight"@.len());
    assert("F3"@[1] != "F1"@[1]);
    assert("F3"@[1] != "F2"@[1]);
    assert("F4"@.len() != "A"@.len());
    assert("F4"@.len() != "B"@.len());
    assert("F4"@.len() != "C"@.len());
    assert("F4"@.len() != "D"@.len());
    assert("F4"@.len() != "E"@.len());
    assert("F4"@.len() != "F"@.len());
    assert("F4"@.len() != "G"@.len());
    assert("F4"@.len() != "H"@.len());
    assert("F4"@.len() != "I"@.len());
    assert("F4"@.len() != "J"@.len());
    assert("F4"@.len() != "K"@.len());
    assert("F4"@.len() != "L"@.len());
    assert("F4"@.len() != "M"@.len());
    assert("F4"@.len() != "N"@.len());
    assert("F4"@.len() != "O"@.len());
    assert("F4"@.len() != "P"@.len());
    assert("F4"@.len() != "Q"@.len());
    assert("F4"@.len() != "R"@.len());
    assert("F4"@.len() != "S"@.len());
    assert("F4"@.len() != "T"@.len());
    assert("F4"@.len() != "U"@.len());
    assert("F4"@.len() != "V"@.len());
    assert("F4"@.len() != "W"@.len());
    assert("F4"@.len() != "X"@.len());
    assert("F4"@.len() != "Y"@.len());
    assert("F4"@.len() != "Z"@.len());
    assert("F4"@.len() != "0"@.len());
    assert("F4"@.len() != "1"@.len());
    assert("F4"@.len() != "2"@.len());
    assert("F4"@.len() != "3"@.len());
    assert("F4"@.len() != "4"@.len());
    assert("F4"@.len() != "5"@.len());
    assert("F4"@.len() != "6"@.len());
    assert("F4"@.len() != "7"@.len());
    assert("F4"@.len() != "8"@.len());
    assert("F4"@.len() != "9"@.len());
    assert("F4"@.len() != "Space"@.len());
    assert("F4"@.len() != "Enter"@.len());
    assert("F4"@.len() != "Escape"@.len());
    assert("F4"@.len() != "Tab"@.len());
    assert("F4"@.len() != "Backspace"@.len());
    assert("F4"@.len() != "ArrowUp"@.len());
    assert("F4"@.len() != "ArrowDown"@.len());
    assert("F4"@.len() != "ArrowLeft"@.len());
    assert("F4"@.len() != "ArrowRight"@.len());
    assert("F4"@[1] != "F1"@[1]);
    assert("F4"@[1] != "F2"@[1]);
    assert("F4"@[1] != "F3"@[1]);
    assert("F5"@.len() != "A"@.len());
    assert("F5"@.len() != "B"@.len());
    assert("F5"@.len() != "C"@.len());
    assert("F5"@.len() != "D"@.len());
    assert("F5"@.len() != "E"@.len());
    assert("F5"@.len() != "F"@.len());
    assert("F5"@.len() != "G"@.len());
    assert("F5"@.len() != "H"@.len());
    assert("F5"@.len() != "I"@.len());
    assert("F5"@.len() != "J"@.len());
    assert("F5"@.len() != "K"@.len());
    assert("F5"@.len() != "L"@.len());
    assert("F5"@.len() != "M"@.len());
    assert("F5"@.len() != "N"@.len());
    assert("F5"@.len() != "O"@.len());
    assert("F5"@.len() != "P"@.len());
    assert("F5"@.len() != "Q"@.len());
    assert("F5"@.len() != "R"@.len());
    assert("F5"@.len() != "S"@.len());
    assert("F5"@.len() != "T"@.len());
    assert("F5"@.len() != "U"@.len());
    assert("F5"@.len() != "V"@.len());
    assert("F5"@.len() != "W"@.len());
    assert("F5"@.len() != "X"@.len());
    assert("F5"@.len() != "Y"@.len());
    assert("F5"@.len() != "Z"@.len());
    assert("F5"@.len() != "0"@.len());
    assert("F5"@.len() != "1"@.len());
    assert("F5"@.len() != "2"@.len());
    assert("F5"@.len() != "3"@.len());
    assert("F5"@.len() != "4"@.len());
    assert("F5"@.len() != "5"@.len());
    assert("F5"@.len() != "6"@.len());
    assert("F5"@.len() != "7"@.len());
    assert("F5"@.len() != "8"@.len());
    assert("F5"@.len() != "9"@.len());
    assert("F5"@.len() != "Space"@.len());
    assert("F5"@.len() != "Enter"@.len());
    assert("F5"@.len() != "Escape"@.len());
    assert("F5"@.len() != "Tab"@.len());
    assert("F5"@.len() != "Backspace"@.len());
    assert("F5"@.len() != "ArrowUp"@.len());
    assert("F5"@.len() != "ArrowDown"@.len());
    assert("F5"@.len() != "ArrowLeft"@.len());
    assert("F5"@.len() != "ArrowRight"@.len());
    assert("F5"@[1] != "F1"@[1]);
    assert("F5"@[1] != "F2"@[1]);
    assert("F5"@[1] != "F3"@[1]);
    assert("F5"@[1] != "F4"@[1]);
    assert("F6"@.len() != "A"@.len());
    assert("F6"@.len() != "B"@.len());
    assert("F6"@.len() != "C"@.len());
    assert("F6"@.len() != "D"@.len());
    assert("F6"@.len() != "E"@.len());
    assert("F6"@.len() != "F"@.len());
    assert("F6"@.len() != "G"@.len());
    assert("F6"@.len() != "H"@.len());
    assert("F6"@.len() != "I"@.len());
    assert("F6"@.len() != "J"@.len());
    assert("F6"@.len() != "K"@.len());
    assert("F6"@.len() != "L"@.len());
    assert("F6"@.len() != "M"@.len());
    assert("F6"@.len() != "N"@.len());
    assert("F6"@.len() != "O"@.len());
    assert("F6"@.len() != "P"@.len());
    assert("F6"@.len() != "Q"@.len());
    assert("F6"@.len() != "R"@.len());
    assert("F6"@.len() != "S"@.len());
    assert("F6"@.len() != "T"@.len());
    assert("F6"@.len() != "U"@.len());
    assert("F6"@.len() != "V"@.len());
    assert("F6"@.len() != "W"@.len());
    assert("F6"@.len() != "X"@.len());
    assert("F6"@.len() != "Y"@.len());
    assert("F6"@.len() != "Z"@.len());
    assert("F6"@.len() != "0"@.len());
    assert("F6"@.len() != "1"@.len());
    assert("F6"@.len() != "2"@.len());
    assert("F6"@.len() != "3"@.len());
    assert("F6"@.len() != "4"@.len());
    assert("F6"@.len() != "5"@.len());
    assert("F6"@.len() != "6"@.len());
    assert("F6"@.len() != "7"@.len());
    assert("F6"@.len() != "8"@.len());
    assert("F6"@.len() != "9"@.len());
    assert("F6"@.len() != "Space"@.len());
    assert("F6"@.len() != "Enter"@.len());
    assert("F6"@.len() != "Escape"@.len());
    assert("F6"@.len() != "Tab"@.len());
    assert("F6"@.len() != "Backspace"@.len());
    assert("F6"@.len() != "ArrowUp"@.len());
    assert("F6"@.len() != "ArrowDown"@.len());
    assert("F6"@.len() != "ArrowLeft"@.len());
    assert("F6"@.len() != "ArrowRight"@.len());
    assert("F6"@[1] != "F1"@[1]);
    assert("F6"@[1] != "F2"@[1]);
    assert("F6"@[1] != "F3"@[1]);
    assert("F6"@[1] != "F4"@[1]);
    assert("F6"@[1] != "F5"@[1]);
    assert("F7"@.len() != "A"@.len());
    assert("F7"@.len() != "B"@.len());
    assert("F7"@.len() != "C"@.len());
    assert("F7"@.len() != "D"@.len());
    assert("F7"@.len() != "E"@.len());
    assert("F7"@.len() != "F"@.len());
    assert("F7"@.len() != "G"@.len());
    assert("F7"@.len() != "H"@.len());
    assert("F7"@.len() != "I"@.len());
    assert("F7"@.len() != "J"@.len());
    assert("F7"@.len() != "K"@.len());
    assert("F7"@.len() != "L"@.len());
    assert("F7"@.len() != "M"@.len());
    assert("F7"@.len() != "N"@.len());
    assert("F7"@.len() != "O"@.len());
    assert("F7"@.len() != "P"@.len());
    assert("F7"@.len() != "Q"@.len());
    assert("F7"@.len() != "R"@.len());
    assert("F7"@.len() != "S"@.len());
    assert("F7"@.len() != "T"@.len());
    assert("F7"@.len() != "U"@.len());
    assert("F7"@.len() != "V"@.len());
    assert("F7"@.len() != "W"@.len());
    assert("F7"@.len() != "X"@.len());
    assert("F7"@.len() != "Y"@.len());
    assert("F7"@.len() != "Z"@.len());
    assert("F7"@.len() != "0"@.len());
    assert("F7"@.len() != "1"@.len());
    assert("F7"@.len() != "2"@.len());
    assert("F7"@.len() != "3"@.len());
    assert("F7"@.len() != "4"@.len());
    assert("F7"@.len() != "5"@.len());
    assert("F7"@.len() != "6"@.len());
    assert("F7"@.len() != "7"@.len());
    assert("F7"@.len() != "8"@.len());
    assert("F7"@.len() != "9"@.len());
    assert("F7"@.len() != "Space"@.len());
    assert("F7"@.len() != "Enter"@.len());
    assert("F7"@.len() != "Escape"@.len());
    assert("F7"@.len() != "Tab"@.len());
    assert("F7"@.len() != "Backspace"@.len());
    assert("F7"@.len() != "ArrowUp"@.len());
    assert("F7"@.len() != "ArrowDown"@.len());
    assert("F7"@.len() != "ArrowLeft"@.len());
    assert("F7"@.len() != "ArrowRight"@.len());
    assert("F7"@[1] != "F1"@[1]);
    assert("F7"@[1] != "F2"@[1]);
    assert("F7"@[1] != "F3"@[1]);
    assert("F7"@[1] != "F4"@[1]);
    assert("F7"@[1] != "F5"@[1]);
    assert("F7"@[1] != "F6"@[1]);
    assert("F8"@.len() != "A"@.len());
    assert("F8"@.len() != "B"@.len());
    assert("F8"@.len() != "C"@.len());
    assert("F8"@.len() != "D"@.len());
    assert("F8"@.len() != "E"@.len());
    assert("F8"@.len() != "F"@.len());
    assert("F8"@.len() != "G"@.len());
    assert("F8"@.len() != "H"@.len());
    assert("F8"@.len() != "I"@.len());
    assert("F8"@.len() != "J"@.len());
    assert("F8"@.len() != "K"@.len());
    assert("F8"@.len() != "L"@.len());
    assert("F8"@.len() != "M"@.len());
    assert("F8"@.len() != "N"@.len());
    assert("F8"@.len() != "O"@.len());
    assert("F8"@.len() != "P"@.len());
    assert("F8"@.len() != "Q"@.len());
    assert("F8"@.len() != "R"@.len());
    assert("F8"@.len() != "S"@.len());
    assert("F8"@.len() != "T"@.len());
    assert("F8"@.len() != "U"@.len());
    assert("F8"@.len() != "V"@.len());
    assert("F8"@.len() != "W"@.len());
    assert("F8"@.len() != "X"@.len());
    assert("F8"@.len() != "Y"@.len());
    assert("F8"@.len() != "Z"@.len());
    assert("F8"@.len() != "0"@.len());
    assert("F8"@.len() != "1"@.len());
    assert("F8"@.len() != "2"@.len());
    assert("F8"@.len() != "3"@.len());
    assert("F8"@.len() != "4"@.len());
    assert("F8"@.len() != "5"@.len());
    assert("F8"@.len() != "6"@.len());
    assert("F8"@.len() != "7"@.len());
    assert("F8"@.len() != "8"@.len());
    assert("F8"@.len() != "9"@.len());
    assert("F8"@.len() != "Space"@.len());
    assert("F8"@.len() != "Enter"@.len());
    assert("F8"@.len() != "Escape"@.len());
    assert("F8"@.len() != "Tab"@.len());
    assert("F8"@.len() != "Backspace"@.len());
    assert("F8"@.len() != "ArrowUp"@.len());
    assert("F8"@.len() != "ArrowDown"@.len());
    assert("F8"@.len() != "ArrowLeft"@.len());
    assert("F8"@.len() != "ArrowRight"@.len());
    assert("F8"@[1] != "F1"@[1]);
    assert("F8"@[1] != "F2"@[1]);
    assert("F8"@[1] != "F3"@[1]);
    assert("F8"@[1] != "F4"@[1]);
    assert("F8"@[1] != "F5"@[1]);
    assert("F8"@[1] != "F6"@[1]);
    assert("F8"@[1] != "F7"@[1]);
    assert("F9"@.len() != "A"@.len());
    assert("F9"@.len() != "B"@.len());
    assert("F9"@.len() != "C"@.len());
    assert("F9"@.len() != "D"@.len());
    assert("F9"@.len() != "E"@.len());
    assert("F9"@.len() != "F"@.len());
    assert("F9"@.len() != "G"@.len());
    assert("F9"@.len() != "H"@.len());
    assert("F9"@.len() != "I"@.len());
    assert("F9"@.len() != "J"@.len());
    assert("F9"@.len() != "K"@.len());
    assert("F9"@.len() != "L"@.len());
    assert("F9"@.len() != "M"@.len());
    assert("F9"@.len() != "N"@.len());
    assert("F9"@.len() != "O"@.len());
    assert("F9"@.len() != "P"@.len());
    assert("F9"@.len() != "Q"@.len());
    assert("F9"@.len() != "R"@.len());
    assert("F9"@.len() != "S"@.len());
    assert("F9"@.len() != "T"@.len());
    assert("F9"@.len() != "U"@.len());
    assert("F9"@.len() != "V"@.len());
    assert("F9"@.len() != "W"@.len());
    assert("F9"@.len() != "X"@.len());
    assert("F9"@.len() != "Y"@.len());
    assert("F9"@.len() != "Z"@.len());
    assert("F9"@.len() != "0"@.len());
    assert("F9"@.len() != "1"@.len());
    assert("F9"@.len() != "2"@.len());
    assert("F9"@.len() != "3"@.len());
    assert("F9"@.len() != "4"@.len());
    assert("F9"@.len() != "5"@.len());
    assert("F9"@.len() != "6"@.len());
    assert("F9"@.len() != "7"@.len());
    assert("F9"@.len() != "8"@.len());
    assert("F9"@.len() != "9"@.len());
    assert("F9"@.len() != "Space"@.len());
    assert("F9"@.len() != "Enter"@.len());
    assert("F9"@.len() != "Escape"@.len());
    assert("F9"@.len() != "Tab"@.len());
    assert("F9"@.len() != "Backspace"@.len());
    assert("F9"@.len() != "ArrowUp"@.len());
    assert("F9"@.len() != "ArrowDown"@.len());
    assert("F9"@.len() != "ArrowLeft"@.len());
    assert("F9"@.len() != "ArrowRight"@.len());
    assert("F9"@[1] != "F1"@[1]);
    assert("F9"@[1] != "F2"@[1]);
    assert("F9"@[1] != "F3"@[1]);
    assert("F9"@[1] != "F4"@[1]);
    assert("F9"@[1] != "F5"@[1]);
    assert("F9"@[1] != "F6"@[1]);
    assert("F9"@[1] != "F7"@[1]);
    assert("F9"@[1] != "F8"@[1]);
    assert("F10"@.len() != "A"@.len());
    assert("F10"@.len() != "B"@.len());
    assert("F10"@.len() != "C"@.len());
    assert("F10"@.len() != "D"@.len());
    assert("F10"@.len() != "E"@.len());
    assert("F10"@.len() != "F"@.len());
    assert("F10"@.len() != "G"@.len());
    assert("F10"@.len() != "H"@.len());
    assert("F10"@.len() != "I"@.len());
    assert("F10"@.len() != "J"@.len());
    assert("F10"@.len() != "K"@.len());
    assert("F10"@.len() != "L"@.len());
    assert("F10"@.len() != "M"@.len());
    assert("F10"@.len() != "N"@.len());
    assert("F10"@.len() != "O"@.len());
    assert("F10"@.len() != "P"@.len());
    assert("F10"@.len() != "Q"@.len());
    assert("F10"@.len() != "R"@.len());
    assert("F10"@.len() != "S"@.len());
    assert("F10"@.len() != "T"@.len());
    assert("F10"@.len() != "U"@.len());
    assert("F10"@.len() != "V"@.len());
    assert("F10"@.len() != "W"@.len());
    assert("F10"@.len() != "X"@.len());
    assert("F10"@.len() != "Y"@.len());
    assert("F10"@.len() != "Z"@.len());
    assert("F10"@.len() != "0"@.len());
    assert("F10"@.len() != "1"@.len());
    assert("F10"@.len() != "2"@.len());
    assert("F10"@.len() != "3"@.len());
    assert("F10"@.len() != "4"@.len());
    assert("F10"@.len() != "5"@.len());
    assert("F10"@.len() != "6"@.len());
    assert("F10"@.len() != "7"@.len());
    assert("F10"@.len() != "8"@.len());
    assert("F10"@.len() != "9"@.len());
    assert("F10"@.len() != "Space"@.len());
    assert("F10"@.len() != "Enter"@.len());
    assert("F10"@.len() != "Escape"@.len());
    assert("F10"@[0] != "Tab"@[0]);
    assert("F10"@.len() != "Backspace"@.len());
    assert("F10"@.len() != "ArrowUp"@.len());
    assert("F10"@.len() != "ArrowDown"@.len());
    assert("F10"@.len() != "ArrowLeft"@.len());
    assert("F10"@.len() != "ArrowRight"@.len());
    assert("F10"@.len() != "F1"@.len());
    assert("F10"@.len() != "F2"@.len());
    assert("F10"@.len() != "F3"@.len());
    assert("F10"@.len() != "F4"@.len());
    assert("F10"@.len() != "F5"@.len());
    assert("F10"@.len() != "F6"@.len());
    assert("F10"@.len() != "F7"@.len());
    assert("F10"@.len() != "F8"@.len());
    assert("F10"@.len() != "F9"@.len());
    assert("F11"@.len() != "A"@.len());
    assert("F11"@.len() != "B"@.len());
    assert("F11"@.len() != "C"@.len());
    assert("F11"@.len() != "D"@.len());
    assert("F11"@.len() != "E"@.len());
    assert("F11"@.len() != "F"@.len());
    assert("F11"@.len() != "G"@.len());
    assert("F11"@.len() != "H"@.len());
    assert("F11"@.len() != "I"@.len());
    assert("F11"@.len() != "J"@.len());
    assert("F11"@.len() != "K"@.len());
    assert("F11"@.len() != "L"@.len());
    assert("F11"@.len() != "M"@.len());
    assert("F11"@.len() != "N"@.len());
    assert("F11"@.len() != "O"@.len());
    assert("F11"@.len() != "P"@.len());
    assert("F11"@.len() != "Q"@.len());
    assert("F11"@.len() != "R"@.len());
    assert("F11"@.len() != "S"@.len());
    assert("F11"@.len() != "T"@.len());
    assert("F11"@.len() != "U"@.len());
    assert("F11"@.len() != "V"@.len());
    assert("F11"@.len() != "W"@.len());
    assert("F11"@.len() != "X"@.len());
    assert("F11"@.len() != "Y"@.len());
    assert("F11"@.len() != "Z"@.len());
    assert("F11"@.len() != "0"@.len());
    assert("F11"@.len() != "1"@.len());
    assert("F11"@.len() != "2"@.len());
    assert("F11"@.len() != "3"@.len());
    assert("F11"@.len() != "4"@.len());
    assert("F11"@.len() != "5"@.len());
    assert("F11"@.len() != "6"@.len());
    assert("F11"@.len() != "7"@.len());
    assert("F11"@.len() != "8"@.len());
    assert("F11"@.len() != "9"@.len());
    assert("F11"@.len() != "Space"@.len());
    assert("F11"@.len() != "Enter"@.len());
    assert("F11"@.len() != "Escape"@.len());
    assert("F11"@[0] != "Tab"@[0]);
    assert("F11"@.len() != "Backspace"@.len());
    assert("F11"@.len() != "ArrowUp"@.len());
    assert("F11"@.len() != "ArrowDown"@.len());
    assert("F11"@.len() != "ArrowLeft"@.len());
    assert("F11"@.len() != "ArrowRight"@.len());
    assert("F11"@.len() != "F1"@.len());
    assert("F11"@.len() != "F2"@.len());
    assert("F11"@.len() != "F3"@.len());
    assert("F11"@.len() != "F4"@.len());
    assert("F11"@.len() != "F5"@.len());
    assert("F11"@.len() != "F6"@.len());
    assert("F11"@.len() != "F7"@.len());
    assert("F11"@.len() != "F8"@.len());
    assert("F11"@.len() != "F9"@.len());
    assert("F11"@[2] != "F10"@[2]);
    assert("F12"@.len() != "A"@.len());
    assert("F12"@.len() != "B"@.len());
    assert("F12"@.len() != "C"@.len());
    assert("F12"@.len() != "D"@.len());
    assert("F12"@.len() != "E"@.len());
    assert("F12"@.len() != "F"@.len());
    assert("F12"@.len() != "G"@.len());
    assert("F12"@.len() != "H"@.len());
    assert("F12"@.len() != "I"@.len());
    assert("F12"@.len() != "J"@.len());
    assert("F12"@.len() != "K"@.len());
    assert("F12"@.len() != "L"@.len());
    assert("F12"@.len() != "M"@.len());
    assert("F12"@.len() != "N"@.len());
    assert("F12"@.len() != "O"@.len());
    assert("F12"@.len() != "P"@.len());
    assert("F12"@.len() != "Q"@.len());
    assert("F12"@.len() != "R"@.len());
    assert("F12"@.len() != "S"@.len());
    assert("F12"@.len() != "T"@.len());
    assert("F12"@.len() != "U"@.len());
    assert("F12"@.len() != "V"@.len());
    assert("F12"@.len() != "W"@.len());
    assert("F12"@.len() != "X"@.len());
    assert("F12"@.len() != "Y"@.len());
    assert("F12"@.len() != "Z"@.len());
    assert("F12"@.len() != "0"@.len());
    assert("F12"@.len() != "1"@.len());
    assert("F12"@.len() != "2"@.len());
    assert("F12"@.len() != "3"@.len());
    assert("F12"@.len() != "4"@.len());
    assert("F12"@.len() != "5"@.len());
    assert("F12"@.len() != "6"@.len());
    assert("F12"@.len() != "7"@.len());
    assert("F12"@.len() != "8"@.len());
    assert("F12"@.len() != "9"@.len());
    assert("F12"@.len() != "Space"@.len());
    assert("F12"@.len() != "Enter"@.len());
    assert("F12"@.len() != "Escape"@.len());
    assert("F12"@[0] != "Tab"@[0]);
    assert("F12"@.len() != "Backspace"@.len());
    assert("F12"@.len() != "ArrowUp"@.len());
    assert("F12"@.len() != "ArrowDown"@.len());
    assert("F12"@.len() != "ArrowLeft"@.len());
    assert("F12"@.len() != "ArrowRight"@.len());
    assert("F12"@.len() != "F1"@.len());
    assert("F12"@.len() != "F2"@.len());
    assert("F12"@.len() != "F3"@.len());
    assert("F12"@.len() != "F4"@.len());
    assert("F12"@.len() != "F5"@.len());
    assert("F12"@.len() != "F6"@.len());
    assert("F12"@.len() != "F7"@.len());
    assert("F12"@.len() != "F8"@.len());
    assert("F12"@.len() != "F9"@.len());
    assert("F12"@[2] != "F10"@[2]);
    assert("F12"@[2] != "F11"@[2]);
    assert forall|k: Key| 0 <= key_index(k) < 12 implies #[trigger] key_named(key_name(k)) == Some(k) by {
        match k {
            Key::F12 => {},
            Key::F11 => {},
            Key::F10 => {},
            Key::F9 => {},
            Key::F8 => {},
            Key::F7 => {},
            Key::F6 => {},
            Key::F5 => {},
            Key::F4 => {},
            Key::F3 => {},
            Key::F2 => {},
            Key::F1 => {},
            _ => {},
        }
    }
}

/// Law (a key name means that key): a binding string names a key only when
/// it is that key's own name, so a binding to "ArrowUp" fires on ArrowUp and
/// on no other key.
pub proof fn law_key_named_is_its_name(s: Seq<char>, k: Key)
    requires
        key_named(s) == Some(k),
    ensures
        s == key_name(k),
        !(k is Other),
{
}

/// Law (every key has its name): each key that bindings can name is named
/// by its own name.
pub proof fn law_each_key_has_its_name(k: Key)
    requires
        !(k is Other),
    ensures
        key_named(key_name(k)) == Some(k),
{
    lemma_letter_names();
    lemma_digit_names();
    lemma_special_key_names();
    lemma_function_key_names();
}

/// Law (button names mean their buttons): "left" or "primary" names the
/// primary button, "right" or "secondary" the secondary one, "middle" the
/// middle one (ASCII case ignored); no other string names a button.
pub proof fn law_button_names(s: Seq<char>)
    ensures
        eq_ascii_lower(s, "left"@) || eq_ascii_lower(s, "primary"@) ==> button_named(s) == Some(MouseButton::Primary),
        eq_ascii_lower(s, "right"@) || eq_ascii_lower(s, "secondary"@) ==> button_named(s) == Some(MouseButton::Secondary),
        eq_ascii_lower(s, "middle"@) ==> button_named(s) == Some(MouseButton::Middle),
        !(eq_ascii_lower(s, "left"@) || eq_ascii_lower(s, "primary"@) || eq_ascii_lower(s, "right"@) || eq_ascii_lower(s, "secondary"@) || eq_ascii_lower(s, "middle"@)) ==> button_named(s) is None,
{
    reveal_strlit("left");
    reveal_strlit("primary");
    reveal_strlit("right");
    reveal_strlit("secondary");
    reveal_strlit("middle");
    if eq_ascii_lower(s, "left"@) {
        assert(s.len() == 4);
        assert(ascii_lower(s[0]) == 'l');
        assert(ascii_lower(s[1]) == 'e');
        assert(ascii_lower(s[2]) == 'f');
        assert(ascii_lower(s[3]) == 't');
    }
    if eq_ascii_lower(s, "primary"@) {
        assert(s.len() == 7);
        assert(ascii_lower(s[0]) == 'p');
        assert(ascii_lower(s[1]) == 'r');
        assert(ascii_lower(s[2]) == 'i');
        assert(ascii_lower(s[3]) == 'm');
        assert(ascii_lower(s[4]) == 'a');
        assert(ascii_lower(s[5]) == 'r');
        assert(ascii_lower(s[6]) == 'y');
    }
    if eq_ascii_lower(s, "right"@) {
        assert(s.len() == 5);
        assert(ascii_lower(s[0]) == 'r');
        assert(ascii_lower(s[1]) == 'i');
        assert(ascii_lower(s[2]) == 'g');
        assert(ascii_lower(s[3]) == 'h');
        assert(ascii_lower(s[4]) == 't');
    }
    if eq_ascii_lower(s, "secondary"@) {
        assert(s.len() == 9);
        assert(ascii_lower(s[0]) == 's');
        assert(ascii_lower(s[1]) == 'e');
        assert(ascii_lower(s[2]) == 'c');
        assert(ascii_lower(s[3]) == 'o');
        assert(ascii_lower(s[4]) == 'n');
        assert(ascii_lower(s[5]) == 'd');
        assert(ascii_lower(s[6]) == 'a');
        assert(ascii_lower(s[7]) == 'r');
        assert(ascii_lower(s[8]) == 'y');
    }
    if eq_ascii_lower(s, "middle"@) {
        assert(s.len() == 6);
        assert(ascii_lower(s[0]) == 'm');
        assert(ascii_lower(s[1]) == 'i');
        assert(ascii_lower(s[2]) == 'd');
        assert(ascii_lower(s[3]) == 'd');
        assert(ascii_lower(s[4]) == 'l');
        assert(ascii_lower(s[5]) == 'e');
    }
}

} // verus!
