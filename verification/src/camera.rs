//! Per-camera configuration: which buttons grab, which keys move,
//! speeds, sensitivities, the scale interval and the pan boundary.

use vstd::prelude::*;

use crate::ext::Ext;
use crate::frac::Frac;
use crate::frac::FracVal;
use crate::frac::fone;
use crate::geom::BoundsRect;
use crate::geom::BoundsRectVal;
use crate::geom::ExtVec2;
use crate::geom::ScaleRange;
use crate::geom::ScaleRangeVal;
use crate::geom::Vec2;
use crate::geom::Vec2Val;
use crate::geom::bounds_ok;
use crate::geom::scale_range_ok;

verus! {

/// A keyboard key, by the host's key code; the keys the library names
/// are the ones its default bindings use.
#[derive(Clone, Copy, PartialEq, Eq, Structural, Debug)]
pub enum Key {
    /// The up arrow key.
    ArrowUp,
    /// The down arrow key.
    ArrowDown,
    /// The left arrow key.
    ArrowLeft,
    /// The right arrow key.
    ArrowRight,
    /// The letter key W.
    KeyW,
    /// The letter key A.
    KeyA,
    /// The letter key S.
    KeyS,
    /// The letter key D.
    KeyD,
    /// Any other key, by the host's numeric code.
    Other(u32),
}

/// A pointer button.
#[derive(Clone, Copy, PartialEq, Eq, Structural, Debug)]
pub enum PointerButton {
    /// The primary button.
    Left,
    /// The secondary button.
    Right,
    /// The wheel button.
    Middle,
    /// Any other button, by the host's numeric code.
    Other(u16),
}

/// Whether any key of `keys` is in the pressed set.
pub open spec fn any_key_down(keys: Seq<Key>, pressed: Seq<Key>) -> bool {
    exists|i: int| 0 <= i < keys.len() && pressed.contains(keys[i])
}

fn list_has_key(list: &Vec<Key>, k: Key) -> (r: bool)
    ensures
        r == list@.contains(k),
{
    let mut i: usize = 0;
    while i < list.len()
        invariant
            0 <= i <= list@.len(),
            forall|j: int| 0 <= j < i ==> list@[j] != k,
        decreases list@.len() - i,
    {
        if list[i] == k {
            assert(list@[i as int] == k);
            return true;
        }
        i = i + 1;
    }
    false
}

fn any_key_pressed(keys: &Vec<Key>, pressed: &Vec<Key>) -> (r: bool)
    ensures
        r == any_key_down(keys@, pressed@),
{
    let mut i: usize = 0;
    while i < keys.len()
        invariant
            0 <= i <= keys@.len(),
            forall|j: int| 0 <= j < i ==> !pressed@.contains(keys@[j]),
        decreases keys@.len() - i,
    {
        if list_has_key(pressed, keys[i]) {
            assert(pressed@.contains(keys@[i as int]));
            return true;
        }
        i = i + 1;
    }
    false
}

/// Whether `b` is in the button list.
pub open spec fn button_in(list: Seq<PointerButton>, b: PointerButton) -> bool {
    list.contains(b)
}

/// Whether some button of `list` is held but was not pressed only
/// this frame.
pub open spec fn any_button_held(
    list: Seq<PointerButton>,
    pressed: Seq<PointerButton>,
    just_pressed: Seq<PointerButton>,
) -> bool {
    exists|i: int|
        0 <= i < list.len() && pressed.contains(list[i]) && !just_pressed.contains(list[i])
}

fn list_has_button(list: &Vec<PointerButton>, b: PointerButton) -> (r: bool)
    ensures
        r == button_in(list@, b),
{
    let mut i: usize = 0;
    while i < list.len()
        invariant
            0 <= i <= list@.len(),
            forall|j: int| 0 <= j < i ==> list@[j] != b,
        decreases list@.len() - i,
    {
        if list[i] == b {
            assert(list@[i as int] == b);
            return true;
        }
        i = i + 1;
    }
    false
}

/// Whether some button of `grab_buttons` is held and was already held
/// when the frame began — a press that starts this frame must not
/// cause a pan jump.
pub fn any_grab_button_held(
    grab_buttons: &Vec<PointerButton>,
    pressed: &Vec<PointerButton>,
    just_pressed: &Vec<PointerButton>,
) -> (r: bool)
    ensures
        r == any_button_held(grab_buttons@, pressed@, just_pressed@),
{
    let mut i: usize = 0;
    while i < grab_buttons.len()
        invariant
            0 <= i <= grab_buttons@.len(),
            forall|j: int| 0 <= j < i ==> !(pressed@.contains(grab_buttons@[j])
                && !just_pressed@.contains(grab_buttons@[j])),
        decreases grab_buttons@.len() - i,
    {
        if list_has_button(pressed, grab_buttons[i])
            && !list_has_button(just_pressed, grab_buttons[i]) {
            assert(pressed@.contains(grab_buttons@[i as int])
                && !just_pressed@.contains(grab_buttons@[i as int]));
            return true;
        }
        i = i + 1;
    }
    false
}

/// Which keys move the camera in each direction.
#[derive(Clone, Debug)]
pub struct DirectionKeys {
    /// The keys that move the camera up.
    pub up: Vec<Key>,
    /// The keys that move the camera down.
    pub down: Vec<Key>,
    /// The keys that move the camera left.
    pub left: Vec<Key>,
    /// The keys that move the camera right.
    pub right: Vec<Key>,
}

/// One signed axis of the keyboard direction: one when only the
/// positive side is pressed, minus one when only the negative side
/// is, zero otherwise.
pub open spec fn dir_component(pos: bool, neg: bool) -> int {
    (if pos {
        1int
    } else {
        0int
    }) - (if neg {
        1int
    } else {
        0int
    })
}

/// The raw keyboard direction a set of pressed keys asks for; each
/// component is minus one, zero or one.
pub open spec fn direction_model(keys: DirectionKeys, pressed: Seq<Key>) -> Vec2Val {
    Vec2Val {
        x: FracVal {
            num: dir_component(
                any_key_down(keys.right@, pressed),
                any_key_down(keys.left@, pressed),
            ),
            den: 1,
        },
        y: FracVal {
            num: dir_component(
                any_key_down(keys.up@, pressed),
                any_key_down(keys.down@, pressed),
            ),
            den: 1,
        },
    }
}

impl DirectionKeys {
    /// No keys move the camera.
    pub fn none() -> (r: DirectionKeys)
        ensures
            r.up@ =~= Seq::<Key>::empty(),
            r.down@ =~= Seq::<Key>::empty(),
            r.left@ =~= Seq::<Key>::empty(),
            r.right@ =~= Seq::<Key>::empty(),
    {
        DirectionKeys { up: Vec::new(), down: Vec::new(), left: Vec::new(), right: Vec::new() }
    }

    /// The camera is moved by the arrow keys.
    pub fn arrows() -> (r: DirectionKeys)
        ensures
            r.up@ =~= seq![Key::ArrowUp],
            r.down@ =~= seq![Key::ArrowDown],
            r.left@ =~= seq![Key::ArrowLeft],
            r.right@ =~= seq![Key::ArrowRight],
    {
        let mut up: Vec<Key> = Vec::new();
        up.push(Key::ArrowUp);
        let mut down: Vec<Key> = Vec::new();
        down.push(Key::ArrowDown);
        let mut left: Vec<Key> = Vec::new();
        left.push(Key::ArrowLeft);
        let mut right: Vec<Key> = Vec::new();
        right.push(Key::ArrowRight);
        DirectionKeys { up, down, left, right }
    }

    /// The camera is moved by the WASD keys.
    pub fn wasd() -> (r: DirectionKeys)
        ensures
            r.up@ =~= seq![Key::KeyW],
            r.down@ =~= seq![Key::KeyS],
            r.left@ =~= seq![Key::KeyA],
            r.right@ =~= seq![Key::KeyD],
    {
        let mut up: Vec<Key> = Vec::new();
        up.push(Key::KeyW);
        let mut down: Vec<Key> = Vec::new();
        down.push(Key::KeyS);
        let mut left: Vec<Key> = Vec::new();
        left.push(Key::KeyA);
        let mut right: Vec<Key> = Vec::new();
        right.push(Key::KeyD);
        DirectionKeys { up, down, left, right }
    }

    /// The camera is moved by the arrow and WASD keys.
    pub fn arrows_and_wasd() -> (r: DirectionKeys)
        ensures
            r.up@ =~= seq![Key::ArrowUp, Key::KeyW],
            r.down@ =~= seq![Key::ArrowDown, Key::KeyS],
            r.left@ =~= seq![Key::ArrowLeft, Key::KeyA],
            r.right@ =~= seq![Key::ArrowRight, Key::KeyD],
    {
        let mut up: Vec<Key> = Vec::new();
        up.push(Key::ArrowUp);
        up.push(Key::KeyW);
        let mut down: Vec<Key> = Vec::new();
        down.push(Key::ArrowDown);
        down.push(Key::KeyS);
        let mut left: Vec<Key> = Vec::new();
        left.push(Key::ArrowLeft);
        left.push(Key::KeyA);
        let mut right: Vec<Key> = Vec::new();
        right.push(Key::ArrowRight);
        right.push(Key::KeyD);
        DirectionKeys { up, down, left, right }
    }

    /// The direction the pressed keys ask the camera to move in; each
    /// component is minus one, zero or one.
    pub fn direction(&self, pressed_keys: &Vec<Key>) -> (r: Vec2)
        ensures
            r.wf(),
            r@ == direction_model(*self, pressed_keys@),
    {
        let mut x: i64 = 0;
        let mut y: i64 = 0;
        if any_key_pressed(&self.left, pressed_keys) {
            x = x - 1;
        }
        if any_key_pressed(&self.right, pressed_keys) {
            x = x + 1;
        }
        if any_key_pressed(&self.up, pressed_keys) {
            y = y + 1;
        }
        if any_key_pressed(&self.down, pressed_keys) {
            y = y - 1;
        }
        Vec2 { x: Frac::from_whole(x), y: Frac::from_whole(y) }
    }
}

/// The full configuration of one pan-camera: what grabs it, what
/// moves it, how fast, and inside which limits.
#[derive(Clone, Debug)]
pub struct PanCam {
    /// The pointer buttons that drag-pan the camera.
    pub grab_buttons: Vec<PointerButton>,
    /// The keys that move the camera.
    pub move_keys: DirectionKeys,
    /// Keyboard movement speed; multiplied with the current scale so
    /// that movement stays proportional to the zoom level.
    pub speed: Frac,
    /// Whether the camera currently responds to input at all.
    pub enabled: bool,
    /// Whether zooming keeps the world point under the cursor fixed;
    /// otherwise zoom is anchored at the view center.
    pub zoom_to_cursor: bool,
    /// Sensitivity applied to the normalized wheel total.
    pub wheel_sensitivity: Frac,
    /// Sensitivity applied to the summed pinch deltas.
    pub pinch_sensitivity: Frac,
    /// Smallest allowed projection scale; a well-formed camera keeps
    /// it positive and finite, since a zero or negative orthographic
    /// scale is degenerate.
    pub min_scale: Ext,
    /// Largest allowed projection scale; positive infinity disables
    /// the upper clamp.
    pub max_scale: Ext,
    /// Smallest allowed world-space x of the visible area.
    pub min_x: Ext,
    /// Largest allowed world-space x of the visible area.
    pub max_x: Ext,
    /// Smallest allowed world-space y of the visible area.
    pub min_y: Ext,
    /// Largest allowed world-space y of the visible area.
    pub max_y: Ext,
}

impl PanCam {
    /// The boundary the camera's configuration describes, as a value.
    pub open spec fn bounds_model(self) -> BoundsRectVal {
        BoundsRectVal {
            min: crate::geom::ExtVec2Val { x: self.min_x@, y: self.min_y@ },
            max: crate::geom::ExtVec2Val { x: self.max_x@, y: self.max_y@ },
        }
    }

    /// The scale interval the camera's configuration describes, as a
    /// value.
    pub open spec fn scale_range_model(self) -> ScaleRangeVal {
        ScaleRangeVal { min: self.min_scale@, max: self.max_scale@ }
    }

    /// Well-formedness: the numeric fields are well-formed, the speed
    /// is positive, the scale interval is ordered and the boundary is
    /// ordered per axis.
    pub open spec fn wf(self) -> bool {
        &&& self.speed.wf()
        &&& crate::frac::fpos(self.speed@)
        &&& self.wheel_sensitivity.wf()
        &&& self.pinch_sensitivity.wf()
        &&& scale_range_ok(self.scale_range_model())
        &&& bounds_ok(self.bounds_model())
    }

    /// The (lower-left, upper-right) corner pair of the boundary.
    pub fn bounds(&self) -> (r: (ExtVec2, ExtVec2))
        ensures
            r.0@ == self.bounds_model().min,
            r.1@ == self.bounds_model().max,
    {
        let min = ExtVec2 { x: self.min_x, y: self.min_y };
        let max = ExtVec2 { x: self.max_x, y: self.max_y };
        (min, max)
    }

    /// The boundary rectangle.
    pub fn rect(&self) -> (r: BoundsRect)
        ensures
            r@ == self.bounds_model(),
            self.wf() ==> r.wf(),
    {
        let (min, max) = self.bounds();
        BoundsRect { min, max }
    }

    /// The inclusive scale interval.
    pub fn scale_range(&self) -> (r: ScaleRange)
        ensures
            r@ == self.scale_range_model(),
            self.wf() ==> r.wf(),
    {
        ScaleRange { min: self.min_scale, max: self.max_scale }
    }
}

impl Default for PanCam {
    /// The stock configuration: all three common buttons grab, arrows
    /// and WASD move, zoom-to-cursor on, a tiny positive minimum
    /// scale, and no other limits.
    fn default() -> (r: PanCam)
        ensures
            r.wf(),
            r.grab_buttons@ =~= seq![
                PointerButton::Left,
                PointerButton::Right,
                PointerButton::Middle,
            ],
            r.move_keys.up@ =~= seq![Key::ArrowUp, Key::KeyW],
            r.move_keys.down@ =~= seq![Key::ArrowDown, Key::KeyS],
            r.move_keys.left@ =~= seq![Key::ArrowLeft, Key::KeyA],
            r.move_keys.right@ =~= seq![Key::ArrowRight, Key::KeyD],
            r.speed@ == (FracVal { num: 200, den: 1 }),
            r.enabled == true,
            r.zoom_to_cursor == true,
            r.wheel_sensitivity@ == fone(),
            r.pinch_sensitivity@ == fone(),
            r.min_scale@ == crate::ext::ExtVal::Fin(FracVal { num: 1, den: 100000 }),
            r.max_scale@ == crate::ext::ExtVal::PosInf,
            r.min_x@ == crate::ext::ExtVal::NegInf,
            r.max_x@ == crate::ext::ExtVal::PosInf,
            r.min_y@ == crate::ext::ExtVal::NegInf,
            r.max_y@ == crate::ext::ExtVal::PosInf,
    {
        let mut grab_buttons: Vec<PointerButton> = Vec::new();
        grab_buttons.push(PointerButton::Left);
        grab_buttons.push(PointerButton::Right);
        grab_buttons.push(PointerButton::Middle);
        PanCam {
            grab_buttons,
            move_keys: DirectionKeys::arrows_and_wasd(),
            speed: Frac::from_whole(200),
            enabled: true,
            zoom_to_cursor: true,
            wheel_sensitivity: Frac::one(),
            pinch_sensitivity: Frac::one(),
            min_scale: Ext::Fin(Frac::new(1, 100000)),
            max_scale: Ext::PosInf,
            min_x: Ext::NegInf,
            max_x: Ext::PosInf,
            min_y: Ext::NegInf,
            max_y: Ext::PosInf,
        }
    }
}

} // verus!
