//! The camera rig: which input drives the camera in each control mode, the
//! limits that hold the orbit distance in range, and the way back to the
//! placement the session started with.
//!
//! Lengths and coordinates are carried as bit patterns of IEEE-754
//! single-precision numbers. The crate compares them and hands them on; the
//! arithmetic on them is the caller's.

use vstd::prelude::*;
use crate::ui::{
    background_of, button_background, registered, state_of, Interaction, ToggleId, ToggleStates,
};

verus! {

/// The shortest orbit distance, 0.2.
pub const MIN_DISTANCE: u32 = 0x3e4c_cccd;

/// The longest orbit distance that zooming reaches, 200.
pub const MAX_DISTANCE: u32 = 0x4348_0000;

/// The strongest shrinking of the distance in one tick, 0.2.
pub const MIN_ZOOM_FACTOR: u32 = 0x3e4c_cccd;

/// The strongest stretching of the distance in one tick, 5.
pub const MAX_ZOOM_FACTOR: u32 = 0x40a0_0000;

/// The least distance that a reset leaves, 0.5.
pub const RESET_FLOOR: u32 = 0x3f00_0000;

/// The least length of the offset that stands in for one of no length, 1.
pub const FALLBACK_FLOOR: u32 = 0x3f80_0000;

/// The squared length under which an offset counts as having no length,
/// two to the power of minus 23.
pub const DEGENERATE_BELOW: u32 = 0x3400_0000;

/// The turn, in radians, that one pixel of pointer motion gives: 0.005.
pub const POINTER_SENSITIVITY: u32 = 0x3ba3_d70a;

/// The share of the distance that one step of the wheel zooms by: 0.2.
pub const WHEEL_ZOOM: u32 = 0x3e4c_cccd;

/// The way, as a share of the distance, that the target moves for one pixel
/// of panning: 0.002.
pub const PAN_SPEED: u32 = 0x3b03_126f;

/// The bit pattern without its sign bit.
pub open spec fn magnitude(bits: u32) -> int {
    if bits >= 0x8000_0000 {
        bits - 0x8000_0000
    } else {
        bits as int
    }
}

/// Whether a bit pattern stands for no number.
pub open spec fn is_nan(bits: u32) -> bool {
    magnitude(bits) > 0x7f80_0000
}

/// The place of a number among all numbers: a larger number has a larger
/// rank, and the two zeros share rank 0.
pub open spec fn rank(bits: u32) -> int {
    if bits >= 0x8000_0000 {
        -magnitude(bits)
    } else {
        magnitude(bits)
    }
}

/// Whether `a` is a smaller number than `b`. Nothing is below or above a
/// pattern that stands for no number.
pub open spec fn below(a: u32, b: u32) -> bool {
    !is_nan(a) && !is_nan(b) && rank(a) < rank(b)
}

/// `value` held between `low` and `high`; a pattern that stands for no
/// number passes unchanged.
pub open spec fn clamped(value: u32, low: u32, high: u32) -> u32 {
    if below(value, low) {
        low
    } else if below(high, value) {
        high
    } else {
        value
    }
}

/// The larger of `value` and `floor`, and `floor` where `value` stands for
/// no number.
pub open spec fn raised(value: u32, floor: u32) -> u32 {
    if is_nan(value) || below(value, floor) {
        floor
    } else {
        value
    }
}

/// Tells whether `a` is a smaller number than `b`.
pub fn less(a: u32, b: u32) -> (yes: bool)
    ensures
        yes == below(a, b),
{
    let (a_negative, a_size) = if a >= 0x8000_0000 {
        (true, a - 0x8000_0000)
    } else {
        (false, a)
    };
    let (b_negative, b_size) = if b >= 0x8000_0000 {
        (true, b - 0x8000_0000)
    } else {
        (false, b)
    };
    if a_size > 0x7f80_0000 || b_size > 0x7f80_0000 {
        false
    } else if a_negative && b_negative {
        b_size < a_size
    } else if a_negative {
        a_size > 0 || b_size > 0
    } else if b_negative {
        false
    } else {
        a_size < b_size
    }
}

/// Holds `value` between `low` and `high`.
pub fn clamp(value: u32, low: u32, high: u32) -> (held: u32)
    requires
        !is_nan(low),
        !is_nan(high),
        !below(high, low),
    ensures
        held == clamped(value, low, high),
{
    if less(value, low) {
        low
    } else if less(high, value) {
        high
    } else {
        value
    }
}

/// Lifts `value` to `floor` where it is smaller or stands for no number.
pub fn at_least(value: u32, floor: u32) -> (lifted: u32)
    requires
        !is_nan(floor),
        rank(floor) > 0,
    ensures
        lifted == raised(value, floor),
{
    let size = if value >= 0x8000_0000 {
        value - 0x8000_0000
    } else {
        value
    };
    if size > 0x7f80_0000 || less(value, floor) {
        floor
    } else {
        value
    }
}

/// The orbit distance for an offset of the given length: the length itself,
/// but no less than the shortest distance.
pub fn floor_distance(length: u32) -> (distance: u32)
    ensures
        distance == raised(length, MIN_DISTANCE),
        !is_nan(distance),
        !below(distance, MIN_DISTANCE),
{
    at_least(length, MIN_DISTANCE)
}

/// The factor by which a zoom of `one_plus_zoom` scales the distance in one
/// tick.
pub fn zoom_factor(one_plus_zoom: u32) -> (factor: u32)
    ensures
        factor == clamped(one_plus_zoom, MIN_ZOOM_FACTOR, MAX_ZOOM_FACTOR),
{
    clamp(one_plus_zoom, MIN_ZOOM_FACTOR, MAX_ZOOM_FACTOR)
}

/// The orbit distance after a zoom, given the distance scaled by the zoom
/// factor.
pub fn limit_distance(scaled: u32) -> (distance: u32)
    ensures
        distance == clamped(scaled, MIN_DISTANCE, MAX_DISTANCE),
        !is_nan(scaled) ==> !is_nan(distance) && !below(distance, MIN_DISTANCE) && !below(
            MAX_DISTANCE,
            distance,
        ),
{
    clamp(scaled, MIN_DISTANCE, MAX_DISTANCE)
}

/// Tells whether an offset of the given squared length counts as having no
/// length, so that another has to stand in for it.
pub fn is_degenerate(length_squared: u32) -> (yes: bool)
    ensures
        yes == below(length_squared, DEGENERATE_BELOW),
{
    less(length_squared, DEGENERATE_BELOW)
}

/// Whatever number the scaling gives, the distance after a zoom lies between
/// the shortest and the longest distance.
pub proof fn lemma_zoom_stays_in_range(scaled: u32)
    requires
        !is_nan(scaled),
    ensures
        !is_nan(clamped(scaled, MIN_DISTANCE, MAX_DISTANCE)),
        rank(MIN_DISTANCE) <= rank(clamped(scaled, MIN_DISTANCE, MAX_DISTANCE)) <= rank(
            MAX_DISTANCE,
        ),
{
}

/// A point or a direction in space.
#[derive(Clone, Copy, Debug, PartialEq, Eq, Structural)]
pub struct Vector {
    pub x: u32,
    pub y: u32,
    pub z: u32,
}

/// An orientation, as the four parts of a unit quaternion.
#[derive(Clone, Copy, Debug, PartialEq, Eq, Structural)]
pub struct Rotation {
    pub x: u32,
    pub y: u32,
    pub z: u32,
    pub w: u32,
}

/// Where the camera stands, how it is turned and how it is scaled.
#[derive(Clone, Copy, Debug, PartialEq, Eq, Structural)]
pub struct Transform {
    pub translation: Vector,
    pub rotation: Rotation,
    pub scale: Vector,
}

/// The orbit of the camera, and the placement to which a reset returns.
#[derive(Clone, Copy, Debug, PartialEq, Eq, Structural)]
pub struct CameraRig {
    /// The point that the camera looks at.
    pub target: Vector,
    /// The distance between camera and target.
    pub distance: u32,
    /// The target at the start of the session.
    pub initial_target: Vector,
    /// The camera's placement at the start of the session.
    pub initial: Transform,
    /// The length of the way from the first target to the first position.
    pub initial_separation: u32,
}

/// The offset that stands in for one of no length: along the third axis, as
/// long as the orbit distance and no shorter than 1.
pub fn fallback_offset(distance: u32) -> (offset: Vector)
    ensures
        offset == (Vector { x: 0, y: 0, z: raised(distance, FALLBACK_FLOOR) }),
{
    Vector { x: 0, y: 0, z: at_least(distance, FALLBACK_FLOOR) }
}

/// Rig and camera after a reset.
pub open spec fn reset_of(rig: CameraRig) -> (CameraRig, Transform) {
    (
        CameraRig {
            target: rig.initial_target,
            distance: raised(rig.initial_separation, RESET_FLOOR),
            initial_target: rig.initial_target,
            initial: rig.initial,
            initial_separation: rig.initial_separation,
        },
        rig.initial,
    )
}

impl CameraRig {
    /// The rig of a camera that starts at `initial` and looks at
    /// `initial_target`, which lies `initial_separation` away.
    pub fn new(
        initial: Transform,
        initial_target: Vector,
        initial_separation: u32,
    ) -> (rig: CameraRig)
        ensures
            rig == (CameraRig {
                target: initial_target,
                distance: initial_separation,
                initial_target,
                initial,
                initial_separation,
            }),
    {
        CameraRig {
            target: initial_target,
            distance: initial_separation,
            initial_target,
            initial,
            initial_separation,
        }
    }

    /// Puts the camera back where the session started: position, turn and
    /// scale as they were, the first target, and the distance between the
    /// two, but no less than 0.5.
    pub fn reset(&mut self, transform: &mut Transform)
        ensures
            (*final(self), *final(transform)) == reset_of(*old(self)),
    {
        *transform = self.initial;
        self.target = self.initial_target;
        self.distance = at_least(self.initial_separation, RESET_FLOOR);
    }
}

/// Handles a change of interaction on the reset button: a press resets rig
/// and camera, anything else leaves both alone. Returns the button's new
/// background grey.
pub fn reset_camera_button_interaction(
    interaction: Interaction,
    camera_rig: &mut CameraRig,
    transform: &mut Transform,
) -> (background: u8)
    ensures
        background == background_of(interaction),
        (*final(camera_rig), *final(transform)) == if interaction == Interaction::Pressed {
            reset_of(*old(camera_rig))
        } else {
            (*old(camera_rig), *old(transform))
        },
{
    match interaction {
        Interaction::Pressed => {
            camera_rig.reset(transform);
        },
        _ => {},
    }
    button_background(interaction)
}

/// A reset after a reset changes nothing: the camera stands where the first
/// one put it, with the same target and distance.
pub proof fn lemma_reset_twice(rig: CameraRig)
    ensures
        reset_of(reset_of(rig).0) == reset_of(rig),
{
}

/// A reset does not depend on where the camera has moved since the start.
pub proof fn lemma_reset_forgets_motion(rig: CameraRig, target: Vector, distance: u32)
    ensures
        reset_of(CameraRig { target, distance, ..rig }) == reset_of(rig),
{
}

/// Which kind of input drives the camera.
#[derive(Clone, Copy, Debug, PartialEq, Eq, Structural)]
pub enum ControlMode {
    Keyboard,
    Pointer,
}

/// The mode that the table of switches selects: the keyboard where its
/// switch is on, the pointer where it is off or unknown.
pub open spec fn mode_of(states: Map<ToggleId, bool>) -> ControlMode {
    if state_of(states, ToggleId::ControlMode) {
        ControlMode::Keyboard
    } else {
        ControlMode::Pointer
    }
}

/// Reads the control mode of this tick from the table of switches.
pub fn control_mode(toggle_states: &ToggleStates) -> (mode: ControlMode)
    ensures
        mode == mode_of(toggle_states@),
{
    if toggle_states.get(ToggleId::ControlMode) {
        ControlMode::Keyboard
    } else {
        ControlMode::Pointer
    }
}

/// The keys that steer the camera, each held or not.
#[derive(Clone, Copy, Debug, PartialEq, Eq, Structural)]
pub struct Keys {
    pub left: bool,
    pub right: bool,
    pub up: bool,
    pub down: bool,
    pub zoom_in: bool,
    pub zoom_out: bool,
}

/// The pointer buttons, each held or not.
#[derive(Clone, Copy, Debug, PartialEq, Eq, Structural)]
pub struct Buttons {
    pub primary: bool,
    pub secondary: bool,
}

/// What drives the camera in one tick.
///
/// The three key directions are -1, 0 or 1; the caller scales them by the
/// elapsed time and the speed of turning or zooming. A positive yaw turns as
/// the pointer does when it moves left, a positive pitch as when it moves up,
/// and a positive zoom widens the distance.
#[derive(Clone, Copy, Debug, PartialEq, Eq, Structural)]
pub struct ControlPlan {
    pub key_yaw: i8,
    pub key_pitch: i8,
    pub key_zoom: i8,
    /// The pointer's motion turns the camera.
    pub pointer_orbits: bool,
    /// The pointer's motion moves the target.
    pub pointer_pans: bool,
    /// The wheel zooms.
    pub wheel_zooms: bool,
    /// Pointer motion and wheel turns of this tick are thrown away unread.
    pub discard_pointer: bool,
}

/// The direction that two opposed keys give: the first counts 1, the second
/// -1, both or neither 0.
pub open spec fn direction(forth: bool, back: bool) -> i8 {
    if forth && !back {
        1i8
    } else if back && !forth {
        -1i8
    } else {
        0i8
    }
}

/// The plan for a tick. In keyboard mode only keys count, and what the
/// pointer did is discarded. In pointer mode only the pointer counts: its
/// motion turns the camera while the primary button is held and moves the
/// target while the secondary button is held, and the wheel zooms.
pub open spec fn planned(mode: ControlMode, keys: Keys, buttons: Buttons) -> ControlPlan {
    match mode {
        ControlMode::Keyboard => ControlPlan {
            key_yaw: direction(keys.left, keys.right),
            key_pitch: direction(keys.up, keys.down),
            key_zoom: direction(keys.zoom_out, keys.zoom_in),
            pointer_orbits: false,
            pointer_pans: false,
            wheel_zooms: false,
            discard_pointer: true,
        },
        ControlMode::Pointer => ControlPlan {
            key_yaw: 0,
            key_pitch: 0,
            key_zoom: 0,
            pointer_orbits: buttons.primary,
            pointer_pans: buttons.secondary,
            wheel_zooms: true,
            discard_pointer: false,
        },
    }
}

/// Tells the direction that two opposed keys give.
pub fn key_direction(forth: bool, back: bool) -> (sign: i8)
    ensures
        sign == direction(forth, back),
{
    if forth && !back {
        1
    } else if back && !forth {
        -1
    } else {
        0
    }
}

/// Decides what drives the camera in this tick.
pub fn camera_controls(mode: ControlMode, keys: Keys, buttons: Buttons) -> (plan: ControlPlan)
    ensures
        plan == planned(mode, keys, buttons),
{
    match mode {
        ControlMode::Keyboard => ControlPlan {
            key_yaw: key_direction(keys.left, keys.right),
            key_pitch: key_direction(keys.up, keys.down),
            key_zoom: key_direction(keys.zoom_out, keys.zoom_in),
            pointer_orbits: false,
            pointer_pans: false,
            wheel_zooms: false,
            discard_pointer: true,
        },
        ControlMode::Pointer => ControlPlan {
            key_yaw: 0,
            key_pitch: 0,
            key_zoom: 0,
            pointer_orbits: buttons.primary,
            pointer_pans: buttons.secondary,
            wheel_zooms: true,
            discard_pointer: false,
        },
    }
}

/// The two modes never mix: in a tick either the keys drive the camera and
/// the pointer is discarded, or the pointer drives it and no key counts.
pub proof fn lemma_modes_exclude(mode: ControlMode, keys: Keys, buttons: Buttons)
    ensures
        ({
            let plan = planned(mode, keys, buttons);
            let by_keys = plan.key_yaw != 0 || plan.key_pitch != 0 || plan.key_zoom != 0;
            let by_pointer = plan.pointer_orbits || plan.pointer_pans || plan.wheel_zooms;
            &&& !(by_keys && by_pointer)
            &&& plan.discard_pointer <==> mode == ControlMode::Keyboard
            &&& plan.discard_pointer ==> !by_pointer
        }),
{
}

/// A rectangle of the window, in physical pixels.
#[derive(Clone, Copy, Debug, PartialEq, Eq, Structural)]
pub struct Viewport {
    pub x: u32,
    pub y: u32,
    pub width: u32,
    pub height: u32,
}

/// The side of the square in which the axes are drawn.
pub const GIZMO_SIZE: u32 = 200;

/// The gap between that square and the window's edge.
pub const GIZMO_MARGIN: u32 = 10;

/// The square for the axes: in the lower left corner of a window of the
/// given height, a margin away from both edges.
pub fn gizmo_viewport(window_height: u32) -> (viewport: Viewport)
    requires
        window_height >= GIZMO_SIZE + GIZMO_MARGIN,
    ensures
        viewport == (Viewport {
            x: GIZMO_MARGIN,
            y: (window_height - GIZMO_SIZE - GIZMO_MARGIN) as u32,
            width: GIZMO_SIZE,
            height: GIZMO_SIZE,
        }),
{
    Viewport {
        x: GIZMO_MARGIN,
        y: window_height - GIZMO_SIZE - GIZMO_MARGIN,
        width: GIZMO_SIZE,
        height: GIZMO_SIZE,
    }
}

/// Sets the cameras up: makes the two switches known, the light attached and
/// the pointer in control, and builds the rig of a camera that starts at
/// `initial` and looks at the origin, `initial_separation` away.
pub fn setup_cameras(
    toggle_states: &mut ToggleStates,
    initial: Transform,
    initial_separation: u32,
) -> (rig: CameraRig)
    ensures
        final(toggle_states)@ == registered(
            registered(old(toggle_states)@, ToggleId::LightAttachment, true),
            ToggleId::ControlMode,
            false,
        ),
        rig == (CameraRig {
            target: Vector { x: 0, y: 0, z: 0 },
            distance: initial_separation,
            initial_target: Vector { x: 0, y: 0, z: 0 },
            initial,
            initial_separation,
        }),
{
    toggle_states.register(ToggleId::LightAttachment, true);
    toggle_states.register(ToggleId::ControlMode, false);
    CameraRig::new(initial, Vector { x: 0, y: 0, z: 0 }, initial_separation)
}

/// Whether a number differs from zero. What stands for no number differs
/// from every number, so also from zero.
pub open spec fn is_nonzero(bits: u32) -> bool {
    magnitude(bits) != 0
}

/// Tells whether a number differs from zero.
pub fn nonzero(bits: u32) -> (yes: bool)
    ensures
        yes == is_nonzero(bits),
{
    bits != 0 && bits != 0x8000_0000
}

/// The changes that the input of one tick asks of the camera.
#[derive(Clone, Copy, Debug, PartialEq, Eq, Structural)]
pub struct Deltas {
    pub yaw: u32,
    pub pitch: u32,
    pub pan_x: u32,
    pub pan_y: u32,
    pub zoom: u32,
}

/// The steps of a camera update that have something to do.
#[derive(Clone, Copy, Debug, PartialEq, Eq, Structural)]
pub struct Steps {
    /// The offset is turned about the target.
    pub rotate: bool,
    /// The target is moved across the view.
    pub pan: bool,
    /// The distance is scaled and then held in range.
    pub zoom: bool,
}

/// The steps that a set of changes calls for: each step is taken where one of
/// its changes differs from zero.
pub open spec fn steps_for(deltas: Deltas) -> Steps {
    Steps {
        rotate: is_nonzero(deltas.yaw) || is_nonzero(deltas.pitch),
        pan: is_nonzero(deltas.pan_x) || is_nonzero(deltas.pan_y),
        zoom: is_nonzero(deltas.zoom),
    }
}

/// Picks the steps of this tick's camera update.
pub fn update_steps(deltas: Deltas) -> (steps: Steps)
    ensures
        steps == steps_for(deltas),
{
    Steps {
        rotate: nonzero(deltas.yaw) || nonzero(deltas.pitch),
        pan: nonzero(deltas.pan_x) || nonzero(deltas.pan_y),
        zoom: nonzero(deltas.zoom),
    }
}

} // verus!
