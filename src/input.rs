//! Edge-triggered input tracking: which keys and mouse buttons are held,
//! which went down during the current frame, and where the pointer is.
use vstd::prelude::*;

verus! {

/// A keyboard key. Every code outside the recognised set is tracked as
/// `NotImplemented`, so distinct unrecognised keys share one state.
#[derive(Clone, Copy, Debug, PartialEq, Eq, Hash, Structural)]
pub enum Key {
    NotImplemented,
    Escape,
    F1,
    F2,
    F3,
    F4,
    F5,
    F6,
    F7,
    F8,
    F9,
    F10,
    F11,
    F12,
    One,
    Two,
    Three,
    Four,
    Five,
    Six,
    Seven,
    Eight,
    Nine,
    Zero,
    A,
    B,
    C,
    D,
    E,
    F,
    G,
    H,
    I,
    J,
    K,
    L,
    M,
    N,
    O,
    P,
    Q,
    R,
    S,
    T,
    U,
    V,
    W,
    X,
    Y,
    Z,
    Up,
    Down,
    Left,
    Right,
    Tab,
    Delete,
    RightShift,
    LeftShift,
    RightCtrl,
    LeftCtrl,
    RightMeta,
    LeftMeta,
    RightAlt,
    LeftAlt,
    Backspace,
    Enter,
    Space,
}

impl Key {
    /// The platform's virtual key code of each recognised key (the
    /// discriminant of winit's `VirtualKeyCode`); none for the sentinel.
    pub open spec fn native_code(self) -> Option<u32> {
        match self {
            Key::NotImplemented => None,
            Key::Escape => Some(36u32),
            Key::F1 => Some(37u32),
            Key::F2 => Some(38u32),
            Key::F3 => Some(39u32),
            Key::F4 => Some(40u32),
            Key::F5 => Some(41u32),
            Key::F6 => Some(42u32),
            Key::F7 => Some(43u32),
            Key::F8 => Some(44u32),
            Key::F9 => Some(45u32),
            Key::F10 => Some(46u32),
            Key::F11 => Some(47u32),
            Key::F12 => Some(48u32),
            Key::One => Some(0u32),
            Key::Two => Some(1u32),
            Key::Three => Some(2u32),
            Key::Four => Some(3u32),
            Key::Five => Some(4u32),
            Key::Six => Some(5u32),
            Key::Seven => Some(6u32),
            Key::Eight => Some(7u32),
            Key::Nine => Some(8u32),
            Key::Zero => Some(9u32),
            Key::A => Some(10u32),
            Key::B => Some(11u32),
            Key::C => Some(12u32),
            Key::D => Some(13u32),
            Key::E => Some(14u32),
            Key::F => Some(15u32),
            Key::G => Some(16u32),
            Key::H => Some(17u32),
            Key::I => Some(18u32),
            Key::J => Some(19u32),
            Key::K => Some(20u32),
            Key::L => Some(21u32),
            Key::M => Some(22u32),
            Key::N => Some(23u32),
            Key::O => Some(24u32),
            Key::P => Some(25u32),
            Key::Q => Some(26u32),
            Key::R => Some(27u32),
            Key::S => Some(28u32),
            Key::T => Some(29u32),
            Key::U => Some(30u32),
            Key::V => Some(31u32),
            Key::W => Some(32u32),
            Key::X => Some(33u32),
            Key::Y => Some(34u32),
            Key::Z => Some(35u32),
            Key::Up => Some(71u32),
            Key::Down => Some(73u32),
            Key::Left => Some(70u32),
            Key::Right => Some(72u32),
            Key::Tab => Some(146u32),
            Key::Delete => Some(66u32),
            Key::RightShift => Some(139u32),
            Key::LeftShift => Some(118u32),
            Key::RightCtrl => Some(138u32),
            Key::LeftCtrl => Some(117u32),
            Key::RightMeta => Some(140u32),
            Key::LeftMeta => Some(119u32),
            Key::RightAlt => Some(136u32),
            Key::LeftAlt => Some(115u32),
            Key::Backspace => Some(74u32),
            Key::Enter => Some(75u32),
            Key::Space => Some(76u32),
        }
    }

    /// Maps a platform virtual key code to the key whose native code it is,
    /// or to `NotImplemented` when no recognised key has that code.
    pub fn from_code(code: u32) -> (r: Key)
        ensures
            r == key_of_code(code),
    {
        let r = match code {
            0 => Key::One,
            1 => Key::Two,
            2 => Key::Three,
            3 => Key::Four,
            4 => Key::Five,
            5 => Key::Six,
            6 => Key::Seven,
            7 => Key::Eight,
            8 => Key::Nine,
            9 => Key::Zero,
            10 => Key::A,
            11 => Key::B,
            12 => Key::C,
            13 => Key::D,
            14 => Key::E,
            15 => Key::F,
            16 => Key::G,
            17 => Key::H,
            18 => Key::I,
            19 => Key::J,
            20 => Key::K,
            21 => Key::L,
            22 => Key::M,
            23 => Key::N,
            24 => Key::O,
            25 => Key::P,
            26 => Key::Q,
            27 => Key::R,
            28 => Key::S,
            29 => Key::T,
            30 => Key::U,
            31 => Key::V,
            32 => Key::W,
            33 => Key::X,
            34 => Key::Y,
            35 => Key::Z,
            36 => Key::Escape,
            37 => Key::F1,
            38 => Key::F2,
            39 => Key::F3,
            40 => Key::F4,
            41 => Key::F5,
            42 => Key::F6,
            43 => Key::F7,
            44 => Key::F8,
            45 => Key::F9,
            46 => Key::F10,
            47 => Key::F11,
            48 => Key::F12,
            66 => Key::Delete,
            70 => Key::Left,
            71 => Key::Up,
            72 => Key::Right,
            73 => Key::Down,
            74 => Key::Backspace,
            75 => Key::Enter,
            76 => Key::Space,
            115 => Key::LeftAlt,
            117 => Key::LeftCtrl,
            118 => Key::LeftShift,
            119 => Key::LeftMeta,
            136 => Key::RightAlt,
            138 => Key::RightCtrl,
            139 => Key::RightShift,
            140 => Key::RightMeta,
            146 => Key::Tab,
            _ => Key::NotImplemented,
        };
        proof {
            if r != Key::NotImplemented {
                assert(r.native_code() == Some(code));
                let k = choose|k: Key| #[trigger] k.native_code() == Some(code);
                lemma_native_code_injective(k, r);
            }
        }
        r
    }
}

/// Each recognised key is the key of its own native code.
pub proof fn lemma_key_of_code(k: Key)
    requires
        k.native_code() is Some,
    ensures
        key_of_code(k.native_code().unwrap()) == k,
{
    let code = k.native_code().unwrap();
    let c = choose|c: Key| #[trigger] c.native_code() == Some(code);
    lemma_native_code_injective(c, k);
}

/// Distinct recognised keys have distinct native codes.
pub proof fn lemma_native_code_injective(a: Key, b: Key)
    requires
        a.native_code() is Some,
        a.native_code() == b.native_code(),
    ensures
        a == b,
{
}

/// The key that a platform virtual key code denotes.
pub open spec fn key_of_code(code: u32) -> Key {
    if exists|k: Key| #[trigger] k.native_code() == Some(code) {
        choose|k: Key| #[trigger] k.native_code() == Some(code)
    } else {
        Key::NotImplemented
    }
}

/// A mouse button. Buttons beyond the three named ones are tracked as
/// `NotImplemented`.
#[derive(Clone, Copy, Debug, PartialEq, Eq, Hash, Structural)]
pub enum MouseButton {
    NotImplemented,
    Left,
    Middle,
    Right,
}

/// A mouse button as the platform reports it.
#[derive(Clone, Copy, Debug, PartialEq, Eq, Structural)]
pub enum NativeMouseButton {
    Left,
    Right,
    Middle,
    Other(u16),
}

impl From<NativeMouseButton> for MouseButton {
    fn from(value: NativeMouseButton) -> (r: MouseButton) {
        match value {
            NativeMouseButton::Left => MouseButton::Left,
            NativeMouseButton::Right => MouseButton::Right,
            NativeMouseButton::Middle => MouseButton::Middle,
            NativeMouseButton::Other(_) => MouseButton::NotImplemented,
        }
    }
}

impl vstd::std_specs::convert::FromSpecImpl<NativeMouseButton> for MouseButton {
    open spec fn obeys_from_spec() -> bool {
        true
    }

    open spec fn from_spec(value: NativeMouseButton) -> MouseButton {
        button_of(value)
    }
}

/// The tracked button for a button that the platform reports.
pub open spec fn button_of(value: NativeMouseButton) -> MouseButton {
    match value {
        NativeMouseButton::Left => MouseButton::Left,
        NativeMouseButton::Right => MouseButton::Right,
        NativeMouseButton::Middle => MouseButton::Middle,
        NativeMouseButton::Other(_) => MouseButton::NotImplemented,
    }
}

/// An input event as the platform delivers it to the tracker.
#[derive(Clone, Copy, Debug, PartialEq, Eq, Structural)]
pub enum InputEvent {
    /// A key went down (`pressed`) or up; `code` is the platform's virtual
    /// key code, absent when the platform could not name the key.
    KeyboardInput { code: Option<u32>, pressed: bool },
    /// The pointer moved; the coordinates are the bit patterns of the two
    /// `f32` pixel coordinates, which the tracker stores without reading.
    CursorMoved { x_bits: u32, y_bits: u32 },
    /// A mouse button went down (`pressed`) or up.
    MouseInput { button: NativeMouseButton, pressed: bool },
}

/// What the tracker holds, as sets.
pub ghost struct InputView {
    pub held_keys: Set<Key>,
    pub just_pressed_keys: Set<Key>,
    pub held_buttons: Set<MouseButton>,
    pub just_pressed_buttons: Set<MouseButton>,
    pub mouse_position: (u32, u32),
}

/// The tracker's state after one event.
pub open spec fn step(v: InputView, e: InputEvent) -> InputView {
    match e {
        InputEvent::KeyboardInput { code: Some(c), pressed } => if pressed {
            InputView {
                held_keys: v.held_keys.insert(key_of_code(c)),
                just_pressed_keys: v.just_pressed_keys.insert(key_of_code(c)),
                ..v
            }
        } else {
            InputView { held_keys: v.held_keys.remove(key_of_code(c)), ..v }
        },
        InputEvent::KeyboardInput { code: None, .. } => v,
        InputEvent::CursorMoved { x_bits, y_bits } => InputView {
            mouse_position: (x_bits, y_bits),
            ..v
        },
        InputEvent::MouseInput { button, pressed } => {
            let b = button_of(button);
            if pressed {
                InputView {
                    held_buttons: v.held_buttons.insert(b),
                    just_pressed_buttons: v.just_pressed_buttons.insert(b),
                    ..v
                }
            } else {
                InputView { held_buttons: v.held_buttons.remove(b), ..v }
            }
        },
    }
}

/// The tracker's state after a run of events, in order.
pub open spec fn run_events(v: InputView, es: Seq<InputEvent>) -> InputView
    decreases es.len(),
{
    if es.len() == 0 {
        v
    } else {
        step(run_events(v, es.drop_last()), es.last())
    }
}

/// The tracker's state once the frame's edges are cleared.
pub open spec fn cleared(v: InputView) -> InputView {
    InputView { just_pressed_keys: Set::empty(), just_pressed_buttons: Set::empty(), ..v }
}

/// Held and just-pressed keys and mouse buttons, and the last pointer
/// position. Each list holds an element at most once.
pub struct InputManager {
    pressed_keys: Vec<Key>,
    just_pressed_keys: Vec<Key>,
    mouse_position: (u32, u32),
    pressed_mouse_buttons: Vec<MouseButton>,
    just_pressed_mouse_buttons: Vec<MouseButton>,
}

impl View for InputManager {
    type V = InputView;

    closed spec fn view(&self) -> InputView {
        InputView {
            held_keys: self.pressed_keys@.to_set(),
            just_pressed_keys: self.just_pressed_keys@.to_set(),
            held_buttons: self.pressed_mouse_buttons@.to_set(),
            just_pressed_buttons: self.just_pressed_mouse_buttons@.to_set(),
            mouse_position: self.mouse_position,
        }
    }
}

impl InputManager {
    /// Each list holds an element at most once.
    pub closed spec fn wf(&self) -> bool {
        &&& self.pressed_keys@.no_duplicates()
        &&& self.just_pressed_keys@.no_duplicates()
        &&& self.pressed_mouse_buttons@.no_duplicates()
        &&& self.just_pressed_mouse_buttons@.no_duplicates()
    }

    /// A tracker with nothing held and the pointer at the origin.
    pub fn new() -> (r: InputManager)
        ensures
            r.wf(),
            r@.held_keys == Set::<Key>::empty(),
            r@.just_pressed_keys == Set::<Key>::empty(),
            r@.held_buttons == Set::<MouseButton>::empty(),
            r@.just_pressed_buttons == Set::<MouseButton>::empty(),
            r@.mouse_position == (0u32, 0u32),
    {
        let r = InputManager {
            pressed_keys: Vec::new(),
            just_pressed_keys: Vec::new(),
            mouse_position: (0, 0),
            pressed_mouse_buttons: Vec::new(),
            just_pressed_mouse_buttons: Vec::new(),
        };
        proof {
            assert(r@.held_keys =~= Set::<Key>::empty());
            assert(r@.just_pressed_keys =~= Set::<Key>::empty());
            assert(r@.held_buttons =~= Set::<MouseButton>::empty());
            assert(r@.just_pressed_buttons =~= Set::<MouseButton>::empty());
        }
        r
    }

    /// Applies one platform event: a key or button going down enters both
    /// the held and the just-pressed set, going up leaves the held set only;
    /// pointer motion replaces the last position.
    pub fn update(&mut self, event: InputEvent)
        requires
            old(self).wf(),
        ensures
            final(self).wf(),
            final(self)@ == step(old(self)@, event),
    {
        match event {
            InputEvent::KeyboardInput { code: Some(c), pressed } => {
                let key = Key::from_code(c);
                if pressed {
                    insert_key(&mut self.pressed_keys, key);
                    insert_key(&mut self.just_pressed_keys, key);
                } else {
                    remove_key(&mut self.pressed_keys, key);
                }
            },
            InputEvent::KeyboardInput { code: None, .. } => {},
            InputEvent::CursorMoved { x_bits, y_bits } => {
                self.mouse_position = (x_bits, y_bits);
            },
            InputEvent::MouseInput { button, pressed } => {
                let b = MouseButton::from(button);
                if pressed {
                    insert_button(&mut self.pressed_mouse_buttons, b);
                    insert_button(&mut self.just_pressed_mouse_buttons, b);
                } else {
                    remove_button(&mut self.pressed_mouse_buttons, b);
                }
            },
        }
    }

    /// Ends the frame's edges: nothing is just pressed any more, and what is
    /// held stays held.
    pub fn clear(&mut self)
        requires
            old(self).wf(),
        ensures
            final(self).wf(),
            final(self)@ == cleared(old(self)@),
    {
        self.just_pressed_keys.clear();
        self.just_pressed_mouse_buttons.clear();
        proof {
            assert(self@.just_pressed_keys =~= Set::<Key>::empty());
            assert(self@.just_pressed_buttons =~= Set::<MouseButton>::empty());
        }
    }

    /// The keys held now, each once.
    pub fn pressed_keys(&self) -> (r: &Vec<Key>)
        requires
            self.wf(),
        ensures
            r@.to_set() == self@.held_keys,
            r@.no_duplicates(),
    {
        &self.pressed_keys
    }

    pub fn key_pressed(&self, key: Key) -> (r: bool)
        ensures
            r == self@.held_keys.contains(key),
    {
        contains_key(&self.pressed_keys, key)
    }

    /// The keys that went down during this frame, each once.
    pub fn just_pressed_keys(&self) -> (r: &Vec<Key>)
        requires
            self.wf(),
        ensures
            r@.to_set() == self@.just_pressed_keys,
            r@.no_duplicates(),
    {
        &self.just_pressed_keys
    }

    pub fn key_just_pressed(&self, key: Key) -> (r: bool)
        ensures
            r == self@.just_pressed_keys.contains(key),
    {
        contains_key(&self.just_pressed_keys, key)
    }

    /// The mouse buttons held now, each once.
    pub fn pressed_mouse_buttons(&self) -> (r: &Vec<MouseButton>)
        requires
            self.wf(),
        ensures
            r@.to_set() == self@.held_buttons,
            r@.no_duplicates(),
    {
        &self.pressed_mouse_buttons
    }

    pub fn mouse_button_pressed(&self, button: MouseButton) -> (r: bool)
        ensures
            r == self@.held_buttons.contains(button),
    {
        contains_button(&self.pressed_mouse_buttons, button)
    }

    /// The mouse buttons that went down during this frame, each once.
    pub fn just_pressed_mouse_buttons(&self) -> (r: &Vec<MouseButton>)
        requires
            self.wf(),
        ensures
            r@.to_set() == self@.just_pressed_buttons,
            r@.no_duplicates(),
    {
        &self.just_pressed_mouse_buttons
    }

    pub fn mouse_button_just_pressed(&self, button: MouseButton) -> (r: bool)
        ensures
            r == self@.just_pressed_buttons.contains(button),
    {
        contains_button(&self.just_pressed_mouse_buttons, button)
    }

    /// The last pointer position, as the bit patterns of its `f32` pixel
    /// coordinates.
    pub fn mouse_position(&self) -> (r: (u32, u32))
        ensures
            r == self@.mouse_position,
    {
        self.mouse_position
    }
}

fn contains_key(v: &Vec<Key>, k: Key) -> (r: bool)
    ensures
        r == v@.contains(k),
{
    let mut i: usize = 0;
    while i < v.len()
        invariant
            i <= v@.len(),
            forall|j: int| 0 <= j < i ==> v@[j] != k,
        decreases v@.len() - i,
    {
        if v[i] == k {
            assert(v@[i as int] == k);
            return true;
        }
        i += 1;
    }
    false
}

fn insert_key(v: &mut Vec<Key>, k: Key)
    requires
        old(v)@.no_duplicates(),
    ensures
        final(v)@.no_duplicates(),
        final(v)@.to_set() == old(v)@.to_set().insert(k),
{
    if contains_key(v, k) {
        assert(v@.to_set() =~= v@.to_set().insert(k));
    } else {
        let ghost s = v@;
        v.push(k);
        proof {
            assert(v@ == s.push(k));
            assert(v@[s.len() as int] == k);
            assert forall|x: Key| #[trigger] v@.contains(x) == (s.contains(x) || x == k) by {
                if s.contains(x) {
                    let j = choose|j: int| 0 <= j < s.len() && s[j] == x;
                    assert(v@[j] == x);
                }
            }
            assert(v@.to_set() =~= s.to_set().insert(k));
        }
    }
}

fn remove_key(v: &mut Vec<Key>, k: Key)
    requires
        old(v)@.no_duplicates(),
    ensures
        final(v)@.no_duplicates(),
        final(v)@.to_set() == old(v)@.to_set().remove(k),
{
    let mut i: usize = 0;
    while i < v.len()
        invariant
            v@ == old(v)@,
            v@.no_duplicates(),
            i <= v@.len(),
            forall|j: int| 0 <= j < i ==> v@[j] != k,
        decreases v@.len() - i,
    {
        if v[i] == k {
            let ghost s = v@;
            v.remove(i);
            proof {
                assert(v@ == s.remove(i as int));
                s.remove_ensures(i as int);
                assert(s[i as int] == k);
                assert forall|a: int, b: int|
                    0 <= a < v@.len() && 0 <= b < v@.len() && a != b implies v@[a] != v@[b] by {
                    let sa = if a < i { a } else { a + 1 };
                    let sb = if b < i { b } else { b + 1 };
                    assert(v@[a] == s[sa] && v@[b] == s[sb]);
                }
                assert forall|x: Key| #[trigger] v@.contains(x) == (s.contains(x) && x != k) by {
                    if s.contains(x) && x != k {
                        let j = choose|j: int| 0 <= j < s.len() && s[j] == x;
                        if j < i {
                            assert(v@[j] == x);
                        } else {
                            assert(v@[j - 1] == x);
                        }
                    }
                    if v@.contains(x) {
                        let j = choose|j: int| 0 <= j < v@.len() && v@[j] == x;
                        let sj = if j < i { j } else { j + 1 };
                        assert(s[sj] == x);
                        assert(sj != i);
                    }
                }
                assert(v@.to_set() =~= s.to_set().remove(k));
            }
            return;
        }
        i += 1;
    }
    assert(!v@.contains(k));
    assert(v@.to_set() =~= v@.to_set().remove(k));
}

fn contains_button(v: &Vec<MouseButton>, k: MouseButton) -> (r: bool)
    ensures
        r == v@.contains(k),
{
    let mut i: usize = 0;
    while i < v.len()
        invariant
            i <= v@.len(),
            forall|j: int| 0 <= j < i ==> v@[j] != k,
        decreases v@.len() - i,
    {
        if v[i] == k {
            assert(v@[i as int] == k);
            return true;
        }
        i += 1;
    }
    false
}

fn insert_button(v: &mut Vec<MouseButton>, k: MouseButton)
    requires
        old(v)@.no_duplicates(),
    ensures
        final(v)@.no_duplicates(),
        final(v)@.to_set() == old(v)@.to_set().insert(k),
{
    if contains_button(v, k) {
        assert(v@.to_set() =~= v@.to_set().insert(k));
    } else {
        let ghost s = v@;
        v.push(k);
        proof {
            assert(v@ == s.push(k));
            assert(v@[s.len() as int] == k);
            assert forall|x: MouseButton| #[trigger] v@.contains(x) == (s.contains(x) || x == k) by {
                if s.contains(x) {
                    let j = choose|j: int| 0 <= j < s.len() && s[j] == x;
                    assert(v@[j] == x);
                }
            }
            assert(v@.to_set() =~= s.to_set().insert(k));
        }
    }
}

fn remove_button(v: &mut Vec<MouseButton>, k: MouseButton)
    requires
        old(v)@.no_duplicates(),
    ensures
        final(v)@.no_duplicates(),
        final(v)@.to_set() == old(v)@.to_set().remove(k),
{
    let mut i: usize = 0;
    while i < v.len()
        invariant
            v@ == old(v)@,
            v@.no_duplicates(),
            i <= v@.len(),
            forall|j: int| 0 <= j < i ==> v@[j] != k,
        decreases v@.len() - i,
    {
        if v[i] == k {
            let ghost s = v@;
            v.remove(i);
            proof {
                assert(v@ == s.remove(i as int));
                s.remove_ensures(i as int);
                assert(s[i as int] == k);
                assert forall|a: int, b: int|
                    0 <= a < v@.len() && 0 <= b < v@.len() && a != b implies v@[a] != v@[b] by {
                    let sa = if a < i { a } else { a + 1 };
                    let sb = if b < i { b } else { b + 1 };
                    assert(v@[a] == s[sa] && v@[b] == s[sb]);
                }
                assert forall|x: MouseButton| #[trigger] v@.contains(x) == (s.contains(x) && x != k) by {
                    if s.contains(x) && x != k {
                        let j = choose|j: int| 0 <= j < s.len() && s[j] == x;
                        if j < i {
                            assert(v@[j] == x);
                        } else {
                            assert(v@[j - 1] == x);
                        }
                    }
                    if v@.contains(x) {
                        let j = choose|j: int| 0 <= j < v@.len() && v@[j] == x;
                        let sj = if j < i { j } else { j + 1 };
                        assert(s[sj] == x);
                        assert(sj != i);
                    }
                }
                assert(v@.to_set() =~= s.to_set().remove(k));
            }
            return;
        }
        i += 1;
    }
    assert(!v@.contains(k));
    assert(v@.to_set() =~= v@.to_set().remove(k));
}

/// The keyboard events of one native code, in order: a key-down where the
/// flag is set, a key-up where it is not.
pub open spec fn key_events(code: u32, downs: Seq<bool>) -> Seq<InputEvent> {
    Seq::new(downs.len(), |i: int| InputEvent::KeyboardInput { code: Some(code), pressed: downs[i] })
}

/// Within one frame (the key not yet just pressed), after any run of downs
/// and ups of one code its key is just pressed exactly when at least one
/// event went down, and held exactly when the last event went down; with no
/// events it is held as before.
pub proof fn lemma_edge_detection(v: InputView, code: u32, downs: Seq<bool>)
    requires
        !v.just_pressed_keys.contains(key_of_code(code)),
    ensures
        run_events(v, key_events(code, downs)).just_pressed_keys.contains(key_of_code(code))
            == (exists|i: int| 0 <= i < downs.len() && downs[i]),
        run_events(v, key_events(code, downs)).held_keys.contains(key_of_code(code)) == (if downs.len()
            == 0 {
            v.held_keys.contains(key_of_code(code))
        } else {
            downs.last()
        }),
    decreases downs.len(),
{
    let k = key_of_code(code);
    if downs.len() > 0 {
        let prefix = downs.drop_last();
        lemma_edge_detection(v, code, prefix);
        assert(key_events(code, downs).drop_last() =~= key_events(code, prefix));
        let w = run_events(v, key_events(code, prefix));
        let e = key_events(code, downs).last();
        assert(run_events(v, key_events(code, downs)) == step(w, e));
        if downs.last() {
            assert(downs[downs.len() - 1]);
        } else {
            if exists|i: int| 0 <= i < downs.len() && downs[i] {
                let i = choose|i: int| 0 <= i < downs.len() && downs[i];
                assert(prefix[i]);
            }
            if exists|i: int| 0 <= i < prefix.len() && prefix[i] {
                let i = choose|i: int| 0 <= i < prefix.len() && prefix[i];
                assert(downs[i]);
            }
        }
    }
}

/// Native codes that no recognised key has all stand for the sentinel: after
/// two distinct ones go down the sentinel is held, and releasing the first
/// releases it although the second was never released.
pub proof fn lemma_unmapped_aliasing(v: InputView, c1: u32, c2: u32)
    requires
        c1 != c2,
        forall|k: Key| #[trigger] k.native_code() != Some(c1),
        forall|k: Key| #[trigger] k.native_code() != Some(c2),
    ensures
        ({
            let both = step(
                step(v, InputEvent::KeyboardInput { code: Some(c1), pressed: true }),
                InputEvent::KeyboardInput { code: Some(c2), pressed: true },
            );
            &&& both.held_keys.contains(Key::NotImplemented)
            &&& !step(
                both,
                InputEvent::KeyboardInput { code: Some(c1), pressed: false },
            ).held_keys.contains(Key::NotImplemented)
        }),
{
    assert(key_of_code(c1) == Key::NotImplemented);
    assert(key_of_code(c2) == Key::NotImplemented);
}

} // verus!
