use vstd::prelude::*;

verus! {

/// Modifier keys held down, as reported with keyboard input.
#[derive(Clone, Copy, Debug, PartialEq, Eq, Structural)]
pub struct Modifiers {
    pub shift: bool,
    pub control: bool,
    pub alt: bool,
    pub logo: bool,
}

pub open spec fn control_only() -> Modifiers {
    Modifiers { shift: false, control: true, alt: false, logo: false }
}

impl Modifiers {
    /// No modifier held.
    pub fn empty() -> (m: Modifiers)
        ensures
            m == (Modifiers { shift: false, control: false, alt: false, logo: false }),
    {
        Modifiers { shift: false, control: false, alt: false, logo: false }
    }

    /// Control alone.
    pub fn control() -> (m: Modifiers)
        ensures
            m == control_only(),
    {
        Modifiers { shift: false, control: true, alt: false, logo: false }
    }
}

/// Keyboard shortcuts the viewer reacts to.
#[derive(Clone, Copy, Debug, PartialEq, Eq, Structural)]
pub enum Action {
    ControlW,
    ControlA,
    ControlS,
    ControlD,
}

/// A shortcut: a key, the exact modifiers that must be held, and its action.
#[derive(Clone, Copy, Debug, PartialEq, Eq, Structural)]
pub struct Binding {
    pub trigger: char,
    pub mods: Modifiers,
    pub action: Action,
}

impl Binding {
    pub fn new(trigger: char, mods: Modifiers, action: Action) -> (b: Binding)
        ensures
            b == (Binding { trigger, mods, action }),
    {
        Binding { trigger, mods, action }
    }

    /// Whether `key` (one key's upper-cased text) with `mods` held fires this binding.
    pub fn is_triggered_by(&self, key: &str, mods: &Modifiers) -> (r: bool)
        ensures
            r == (key@ == seq![self.trigger] && *mods == self.mods),
    {
        let n = key.unicode_len();
        if n != 1 {
            proof {
                assert(key@.len() != seq![self.trigger].len());
            }
            return false;
        }
        let same_key = key.get_char(0) == self.trigger;
        proof {
            if same_key {
                assert(key@ =~= seq![self.trigger]);
            } else {
                assert(key@[0] != seq![self.trigger][0]);
            }
        }
        same_key && *mods == self.mods
    }
}

/// The shortcut table: Control with W, A, S or D.
pub open spec fn key_bindings_spec() -> Seq<Binding> {
    seq![
        Binding { trigger: 'W', mods: control_only(), action: Action::ControlW },
        Binding { trigger: 'A', mods: control_only(), action: Action::ControlA },
        Binding { trigger: 'S', mods: control_only(), action: Action::ControlS },
        Binding { trigger: 'D', mods: control_only(), action: Action::ControlD },
    ]
}

pub fn key_bindings() -> (v: Vec<Binding>)
    ensures
        v@ == key_bindings_spec(),
{
    let mut v: Vec<Binding> = Vec::new();
    v.push(Binding::new('W', Modifiers::control(), Action::ControlW));
    v.push(Binding::new('A', Modifiers::control(), Action::ControlA));
    v.push(Binding::new('S', Modifiers::control(), Action::ControlS));
    v.push(Binding::new('D', Modifiers::control(), Action::ControlD));
    proof {
        assert(v@ =~= key_bindings_spec());
    }
    v
}

/// The action of the first binding that `key` with `mods` fires.
pub open spec fn binding_action(key: Seq<char>, mods: Modifiers) -> Option<Action> {
    if mods != control_only() {
        None
    } else if key == seq!['W'] {
        Some(Action::ControlW)
    } else if key == seq!['A'] {
        Some(Action::ControlA)
    } else if key == seq!['S'] {
        Some(Action::ControlS)
    } else if key == seq!['D'] {
        Some(Action::ControlD)
    } else {
        None
    }
}

/// Looks a key up in the shortcut table.
pub fn process_key_binding(key: &str, mods: &Modifiers) -> (r: Option<Action>)
    ensures
        r == binding_action(key@, *mods),
{
    let bindings = key_bindings();
    let mut i: usize = 0;
    while i < bindings.len()
        invariant
            bindings@ == key_bindings_spec(),
            i <= bindings@.len(),
            forall|j: int|
                0 <= j < i ==> !(key@ == seq![(#[trigger] bindings@[j]).trigger] && *mods
                    == bindings@[j].mods),
        decreases bindings@.len() - i,
    {
        if bindings[i].is_triggered_by(key, mods) {
            proof {
                assert(bindings@[0].trigger == 'W');
                assert(bindings@[1].trigger == 'A');
                assert(bindings@[2].trigger == 'S');
                assert(bindings@[3].trigger == 'D');
                if key@ == seq!['W'] {
                    assert(key@[0] == 'W');
                }
                if key@ == seq!['A'] {
                    assert(key@[0] == 'A');
                }
                if key@ == seq!['S'] {
                    assert(key@[0] == 'S');
                }
            }
            return Some(bindings[i].action);
        }
        i = i + 1;
    }
    proof {
        let b = key_bindings_spec();
        assert(!(key@ == seq![b[0].trigger] && *mods == b[0].mods));
        assert(!(key@ == seq![b[1].trigger] && *mods == b[1].mods));
        assert(!(key@ == seq![b[2].trigger] && *mods == b[2].mods));
        assert(!(key@ == seq![b[3].trigger] && *mods == b[3].mods));
    }
    None
}

/// What `str::to_uppercase` returns for `s`: each character's Unicode
/// uppercase mapping.
pub uninterp spec fn spec_to_uppercase(s: Seq<char>) -> Seq<char>;

/// Calls `str::to_uppercase`. The result is exactly the named result for the
/// input; the Unicode case tables are not restated.
#[verifier::external_body]
fn to_uppercase(s: &str) -> (r: String)
    ensures
        r@ == spec_to_uppercase(s@),
{
    s.to_uppercase()
}

/// Mouse buttons the viewer distinguishes.
#[derive(Clone, Copy, Debug, PartialEq, Eq, Structural)]
pub enum MouseButton {
    Left,
    Right,
    Other,
}

/// Window and device events, reduced to what the click and shortcut state reads.
#[derive(Clone, Debug)]
pub enum InputEvent {
    /// A new batch of events begins.
    NewEvents,
    /// The held modifiers changed.
    ModifiersChanged(Modifiers),
    /// A key went down or up; `text` is the key's text when it produces one.
    Keyboard { text: Option<String>, pressed: bool, synthetic: bool },
    /// A mouse button went down or up.
    MouseInput { button: MouseButton, pressed: bool },
    /// Anything else.
    Other,
}

/// The click and shortcut state as plain values.
#[derive(Clone, Copy, Debug, PartialEq, Eq, Structural)]
pub struct InputFlags {
    pub left: bool,
    pub right: bool,
    pub control_w: bool,
    pub control_a: bool,
    pub control_s: bool,
    pub control_d: bool,
    pub modifiers: Modifiers,
}

/// The shortcut flags after `action` was pressed (`press`) or released.
pub open spec fn apply_action(f: InputFlags, action: Action, press: bool) -> InputFlags {
    match action {
        Action::ControlW => InputFlags { control_w: press, ..f },
        Action::ControlA => InputFlags { control_a: press, ..f },
        Action::ControlS => InputFlags { control_s: press, ..f },
        Action::ControlD => InputFlags { control_d: press, ..f },
    }
}

/// The state after one event: a modifiers change is recorded; a real (not
/// synthetic) key press or release with text sets or clears the flag of the
/// shortcut that the upper-cased text fires with the recorded modifiers; a
/// left or right button press or release sets or clears that button's flag.
pub open spec fn next_flags(f: InputFlags, e: InputEvent) -> InputFlags {
    match e {
        InputEvent::ModifiersChanged(m) => InputFlags { modifiers: m, ..f },
        InputEvent::Keyboard { text, pressed, synthetic } => {
            if synthetic {
                f
            } else {
                match text {
                    Some(t) => match binding_action(spec_to_uppercase(t@), f.modifiers) {
                        Some(a) => apply_action(f, a, pressed),
                        None => f,
                    },
                    None => f,
                }
            }
        },
        InputEvent::MouseInput { button, pressed } => match button {
            MouseButton::Left => InputFlags { left: pressed, ..f },
            MouseButton::Right => InputFlags { right: pressed, ..f },
            MouseButton::Other => f,
        },
        _ => f,
    }
}

/// Which mouse buttons and shortcuts are held down in the model viewer.
#[derive(Clone, Copy, Debug)]
pub struct InputSystem {
    is_left_clicked: bool,
    is_right_clicked: bool,
    is_control_w_clicked: bool,
    is_control_a_clicked: bool,
    is_control_s_clicked: bool,
    is_control_d_clicked: bool,
    modifiers: Modifiers,
}

impl View for InputSystem {
    type V = InputFlags;

    closed spec fn view(&self) -> InputFlags {
        InputFlags {
            left: self.is_left_clicked,
            right: self.is_right_clicked,
            control_w: self.is_control_w_clicked,
            control_a: self.is_control_a_clicked,
            control_s: self.is_control_s_clicked,
            control_d: self.is_control_d_clicked,
            modifiers: self.modifiers,
        }
    }
}

impl InputSystem {
    /// Folds one event into the state.
    pub fn update(self, event: &InputEvent) -> (r: InputSystem)
        ensures
            r@ == next_flags(self@, *event),
    {
        let mut s = self;
        match event {
            InputEvent::NewEvents => {},
            InputEvent::ModifiersChanged(m) => {
                s.modifiers = *m;
            },
            InputEvent::Keyboard { text, pressed, synthetic } => {
                if !*synthetic {
                    match text {
                        Some(t) => {
                            let upper = to_uppercase(t.as_str());
                            let mods = s.modifiers;
                            match process_key_binding(upper.as_str(), &mods) {
                                Some(action) => s.handle_action(action, *pressed),
                                None => {},
                            }
                        },
                        None => {},
                    }
                }
            },
            InputEvent::MouseInput { button, pressed } => {
                match button {
                    MouseButton::Left => {
                        s.is_left_clicked = *pressed;
                    },
                    MouseButton::Right => {
                        s.is_right_clicked = *pressed;
                    },
                    MouseButton::Other => {},
                }
            },
            InputEvent::Other => {},
        }
        s
    }

    fn handle_action(&mut self, action: Action, press: bool)
        ensures
            final(self)@ == apply_action(old(self)@, action, press),
    {
        match action {
            Action::ControlW => self.is_control_w_clicked = press,
            Action::ControlA => self.is_control_a_clicked = press,
            Action::ControlS => self.is_control_s_clicked = press,
            Action::ControlD => self.is_control_d_clicked = press,
        }
    }

    pub fn is_left_clicked(&self) -> (r: bool)
        ensures
            r == self@.left,
    {
        self.is_left_clicked
    }

    pub fn is_right_clicked(&self) -> (r: bool)
        ensures
            r == self@.right,
    {
        self.is_right_clicked
    }

    pub fn is_control_w_clicked(&self) -> (r: bool)
        ensures
            r == self@.control_w,
    {
        self.is_control_w_clicked
    }

    pub fn _is_control_a_clicked(&self) -> (r: bool)
        ensures
            r == self@.control_a,
    {
        self.is_control_a_clicked
    }

    pub fn is_control_s_clicked(&self) -> (r: bool)
        ensures
            r == self@.control_s,
    {
        self.is_control_s_clicked
    }

    pub fn _is_control_d_clicked(&self) -> (r: bool)
        ensures
            r == self@.control_d,
    {
        self.is_control_d_clicked
    }
}

impl Default for InputSystem {
    fn default() -> (r: InputSystem)
        ensures
            r@ == (InputFlags {
                left: false,
                right: false,
                control_w: false,
                control_a: false,
                control_s: false,
                control_d: false,
                modifiers: Modifiers { shift: false, control: false, alt: false, logo: false },
            }),
    {
        InputSystem {
            is_left_clicked: false,
            is_right_clicked: false,
            is_control_w_clicked: false,
            is_control_a_clicked: false,
            is_control_s_clicked: false,
            is_control_d_clicked: false,
            modifiers: Modifiers::empty(),
        }
    }
}

/// The flag that `action` controls.
pub open spec fn action_flag(f: InputFlags, action: Action) -> bool {
    match action {
        Action::ControlW => f.control_w,
        Action::ControlA => f.control_a,
        Action::ControlS => f.control_s,
        Action::ControlD => f.control_d,
    }
}

/// Pressing a key that fires a shortcut sets that shortcut's flag; releasing
/// it again clears the flag and leaves everything else as it was before the
/// press.
pub proof fn law_shortcut_press_then_release(f: InputFlags, text: String, action: Action)
    requires
        binding_action(spec_to_uppercase(text@), f.modifiers) == Some(action),
    ensures
        ({
            let pressed = next_flags(
                f,
                InputEvent::Keyboard { text: Some(text), pressed: true, synthetic: false },
            );
            let released = next_flags(
                pressed,
                InputEvent::Keyboard { text: Some(text), pressed: false, synthetic: false },
            );
            &&& action_flag(pressed, action)
            &&& !action_flag(released, action)
            &&& released == apply_action(f, action, false)
        }),
{
}

/// Each shortcut action sets or clears its own flag, and only that flag.
pub proof fn law_actions_set_their_own_flag(f: InputFlags, p: bool)
    ensures
        apply_action(f, Action::ControlW, p) == (InputFlags { control_w: p, ..f }),
        apply_action(f, Action::ControlA, p) == (InputFlags { control_a: p, ..f }),
        apply_action(f, Action::ControlS, p) == (InputFlags { control_s: p, ..f }),
        apply_action(f, Action::ControlD, p) == (InputFlags { control_d: p, ..f }),
        next_flags(f, InputEvent::ModifiersChanged(f.modifiers)) == f,
{
}

/// Events that are neither modifier changes, real keys nor mouse buttons
/// leave the click and shortcut state as it was.
pub proof fn law_other_events_keep_state(f: InputFlags, text: Option<String>, pressed: bool)
    ensures
        next_flags(f, InputEvent::NewEvents) == f,
        next_flags(f, InputEvent::Other) == f,
        next_flags(f, InputEvent::Keyboard { text, pressed, synthetic: true }) == f,
{
}

/// Each shortcut key with exactly Control held fires its own action, and
/// the four actions differ: W, A, S and D map to ControlW, ControlA, ControlS
/// and ControlD. The shortcut table lists exactly these four bindings in
/// that order.
pub proof fn law_shortcut_keys_fire_their_actions()
    ensures
        binding_action(seq!['W'], control_only()) == Some(Action::ControlW),
        binding_action(seq!['A'], control_only()) == Some(Action::ControlA),
        binding_action(seq!['S'], control_only()) == Some(Action::ControlS),
        binding_action(seq!['D'], control_only()) == Some(Action::ControlD),
        Action::ControlW != Action::ControlA && Action::ControlW != Action::ControlS
            && Action::ControlW != Action::ControlD && Action::ControlA != Action::ControlS
            && Action::ControlA != Action::ControlD && Action::ControlS != Action::ControlD,
        key_bindings_spec().len() == 4,
        key_bindings_spec()[0] == (Binding {
            trigger: 'W',
            mods: Modifiers { shift: false, control: true, alt: false, logo: false },
            action: Action::ControlW,
        }),
        key_bindings_spec()[1] == (Binding {
            trigger: 'A',
            mods: Modifiers { shift: false, control: true, alt: false, logo: false },
            action: Action::ControlA,
        }),
        key_bindings_spec()[2] == (Binding {
            trigger: 'S',
            mods: Modifiers { shift: false, control: true, alt: false, logo: false },
            action: Action::ControlS,
        }),
        key_bindings_spec()[3] == (Binding {
            trigger: 'D',
            mods: Modifiers { shift: false, control: true, alt: false, logo: false },
            action: Action::ControlD,
        }),
{
    assert(seq!['W'] != seq!['A']) by {
        assert(seq!['W'][0] != seq!['A'][0]);
    }
    assert(seq!['W'] != seq!['S']) by {
        assert(seq!['W'][0] != seq!['S'][0]);
    }
    assert(seq!['A'] != seq!['S']) by {
        assert(seq!['A'][0] != seq!['S'][0]);
    }
    assert(seq!['W'] != seq!['D']) by {
        assert(seq!['W'][0] != seq!['D'][0]);
    }
    assert(seq!['A'] != seq!['D']) by {
        assert(seq!['A'][0] != seq!['D'][0]);
    }
    assert(seq!['S'] != seq!['D']) by {
        assert(seq!['S'][0] != seq!['D'][0]);
    }
}

/// A key fires a shortcut only with exactly Control held, and only when it is
/// one of the single characters W, A, S, D; any other key or modifier set
/// fires nothing.
pub proof fn law_shortcuts_need_control_and_letter(key: Seq<char>, mods: Modifiers)
    ensures
        binding_action(key, mods) is Some ==> mods == (Modifiers {
            shift: false,
            control: true,
            alt: false,
            logo: false,
        }) && key.len() == 1 && (key[0] == 'W' || key[0] == 'A' || key[0] == 'S' || key[0]
            == 'D'),
{
}

/// A mouse-button event sets that button's flag to whether the button is
/// down, so a release clears it, and leaves every other flag as it was; a
/// press or release of another button changes nothing.
pub proof fn law_mouse_buttons_follow_events(f: InputFlags, s: (bool, bool), p: bool)
    ensures
        next_flags(f, InputEvent::MouseInput { button: MouseButton::Left, pressed: p }) == (
        InputFlags { left: p, ..f }),
        next_flags(f, InputEvent::MouseInput { button: MouseButton::Right, pressed: p }) == (
        InputFlags { right: p, ..f }),
        next_flags(f, InputEvent::MouseInput { button: MouseButton::Other, pressed: p }) == f,
        next_buttons(s, InputEvent::MouseInput { button: MouseButton::Left, pressed: p }) == (
        p,
        s.1,
        ),
        next_buttons(s, InputEvent::MouseInput { button: MouseButton::Right, pressed: p }) == (
        s.0,
        p,
        ),
        next_buttons(s, InputEvent::MouseInput { button: MouseButton::Other, pressed: p }) == s,
        next_buttons(s, InputEvent::NewEvents) == s,
        next_buttons(s, InputEvent::Other) == s,
        next_buttons(
            next_buttons(s, InputEvent::MouseInput { button: MouseButton::Left, pressed: true }),
            InputEvent::MouseInput { button: MouseButton::Left, pressed: false },
        ).0 == false,
        next_buttons(
            next_buttons(s, InputEvent::MouseInput { button: MouseButton::Right, pressed: true }),
            InputEvent::MouseInput { button: MouseButton::Right, pressed: false },
        ).1 == false,
{
}

/// Mouse button state of the orbit camera, as (left, right) held.
pub open spec fn next_buttons(state: (bool, bool), e: InputEvent) -> (bool, bool) {
    match e {
        InputEvent::MouseInput { button, pressed } => match button {
            MouseButton::Left => (pressed, state.1),
            MouseButton::Right => (state.0, pressed),
            MouseButton::Other => state,
        },
        _ => state,
    }
}

/// Which mouse buttons are held down for the orbit camera.
#[derive(Clone, Copy, Debug)]
pub struct InputState {
    mouse_left_clicked: bool,
    mouse_right_clicked: bool,
}

impl View for InputState {
    type V = (bool, bool);

    closed spec fn view(&self) -> (bool, bool) {
        (self.mouse_left_clicked, self.mouse_right_clicked)
    }
}

impl InputState {
    /// Folds one event into the button state.
    pub fn update(self, event: &InputEvent) -> (r: InputState)
        ensures
            r@ == next_buttons(self@, *event),
    {
        let mut s = self;
        match event {
            InputEvent::MouseInput { button, pressed } => match button {
                MouseButton::Left => {
                    s.mouse_left_clicked = *pressed;
                },
                MouseButton::Right => {
                    s.mouse_right_clicked = *pressed;
                },
                MouseButton::Other => {},
            },
            _ => {},
        }
        s
    }

    pub fn mouse_left_clicked(&self) -> (r: bool)
        ensures
            r == self@.0,
    {
        self.mouse_left_clicked
    }

    pub fn mouse_right_clicked(&self) -> (r: bool)
        ensures
            r == self@.1,
    {
        self.mouse_right_clicked
    }
}

impl Default for InputState {
    fn default() -> (r: InputState)
        ensures
            r@ == (false, false),
    {
        InputState { mouse_left_clicked: false, mouse_right_clicked: false }
    }
}

} // verus!
