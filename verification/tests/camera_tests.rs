use vizmat::camera::{
    at_least, camera_controls, clamp, control_mode, fallback_offset, floor_distance,
    gizmo_viewport, is_degenerate, key_direction, less, limit_distance, nonzero,
    reset_camera_button_interaction, setup_cameras, update_steps, zoom_factor, Buttons, CameraRig,
    ControlMode, ControlPlan, Deltas, Keys, Rotation, Steps, Transform, Vector, Viewport,
    DEGENERATE_BELOW, FALLBACK_FLOOR, MAX_DISTANCE, MAX_ZOOM_FACTOR, MIN_DISTANCE,
    MIN_ZOOM_FACTOR, PAN_SPEED, POINTER_SENSITIVITY, RESET_FLOOR, WHEEL_ZOOM,
};
use vizmat::ui::{Interaction, ToggleId, ToggleStates};

fn vector(x: f32, y: f32, z: f32) -> Vector {
    Vector { x: x.to_bits(), y: y.to_bits(), z: z.to_bits() }
}

fn start() -> Transform {
    Transform {
        translation: vector(5.0, 5.0, 5.0),
        rotation: Rotation {
            x: (-0.27984813f32).to_bits(),
            y: 0.36470526f32.to_bits(),
            z: 0.11591689f32.to_bits(),
            w: 0.8804762f32.to_bits(),
        },
        scale: vector(1.0, 1.0, 1.0),
    }
}

fn samples() -> Vec<f32> {
    let mut all = vec![
        0.0,
        -0.0,
        f32::MIN_POSITIVE,
        -f32::MIN_POSITIVE,
        1.0e-45,
        -1.0e-45,
        0.1,
        0.19999999,
        0.2,
        0.20000002,
        0.5,
        1.0,
        4.9999995,
        5.0,
        5.0000005,
        199.99998,
        200.0,
        200.00002,
        1.0e30,
        f32::MAX,
        f32::MIN,
        f32::INFINITY,
        f32::NEG_INFINITY,
        f32::NAN,
        -f32::NAN,
        f32::from_bits(0x7f80_0001),
        f32::from_bits(0xffff_ffff),
        f32::EPSILON,
        -1.0,
        -200.0,
    ];
    let mut bits: u32 = 0x9e37_79b9;
    for _ in 0..2000 {
        bits = bits.wrapping_mul(1664525).wrapping_add(1013904223);
        all.push(f32::from_bits(bits));
    }
    all
}

fn same(a: f32, b: f32) -> bool {
    a.to_bits() == b.to_bits()
}

#[test]
fn constants_are_the_numbers_they_stand_for() {
    assert_eq!(f32::from_bits(MIN_DISTANCE), 0.2);
    assert_eq!(f32::from_bits(MAX_DISTANCE), 200.0);
    assert_eq!(f32::from_bits(MIN_ZOOM_FACTOR), 0.2);
    assert_eq!(f32::from_bits(MAX_ZOOM_FACTOR), 5.0);
    assert_eq!(f32::from_bits(RESET_FLOOR), 0.5);
    assert_eq!(f32::from_bits(FALLBACK_FLOOR), 1.0);
    assert_eq!(f32::from_bits(DEGENERATE_BELOW), f32::EPSILON);
    assert_eq!(f32::from_bits(POINTER_SENSITIVITY), 0.005);
    assert_eq!(f32::from_bits(WHEEL_ZOOM), 0.2);
    assert_eq!(f32::from_bits(PAN_SPEED), 0.002);
}

#[test]
fn nonzero_agrees_with_the_comparison() {
    for value in samples() {
        assert_eq!(nonzero(value.to_bits()), value != 0.0, "{:?}", value);
    }
}

fn deltas(yaw: f32, pitch: f32, pan_x: f32, pan_y: f32, zoom: f32) -> Deltas {
    Deltas {
        yaw: yaw.to_bits(),
        pitch: pitch.to_bits(),
        pan_x: pan_x.to_bits(),
        pan_y: pan_y.to_bits(),
        zoom: zoom.to_bits(),
    }
}

#[test]
fn steps_are_taken_where_a_change_differs_from_zero() {
    assert_eq!(
        update_steps(deltas(0.0, 0.0, 0.0, 0.0, 0.0)),
        Steps { rotate: false, pan: false, zoom: false }
    );
    assert_eq!(
        update_steps(deltas(-0.0, 0.0, -0.0, 0.0, -0.0)),
        Steps { rotate: false, pan: false, zoom: false }
    );
    assert_eq!(
        update_steps(deltas(0.0, 0.1, 0.0, 0.0, 0.0)),
        Steps { rotate: true, pan: false, zoom: false }
    );
    assert_eq!(
        update_steps(deltas(0.0, 0.0, 0.0, -3.0, 0.0)),
        Steps { rotate: false, pan: true, zoom: false }
    );
    assert_eq!(
        update_steps(deltas(0.0, 0.0, 0.0, 0.0, -0.2)),
        Steps { rotate: false, pan: false, zoom: true }
    );
}

#[test]
fn primary_button_motion_turns_and_leaves_the_distance() {
    let plan = camera_controls(
        ControlMode::Pointer,
        NO_KEYS,
        Buttons { primary: true, secondary: false },
    );
    assert!(plan.pointer_orbits && !plan.pointer_pans);
    let sensitivity = f32::from_bits(POINTER_SENSITIVITY);
    let yaw = -(10.0 * sensitivity);
    let pitch = -(0.0 * sensitivity);
    assert_eq!(yaw, -(10.0f32 * 0.005f32));
    assert!((yaw + 0.05).abs() < 1.0e-6);
    let steps = update_steps(deltas(yaw, pitch, 0.0, 0.0, 0.0));
    assert_eq!(steps, Steps { rotate: true, pan: false, zoom: false });
}

#[test]
fn control_mode_follows_its_switch() {
    let mut states = ToggleStates::new();
    assert_eq!(control_mode(&states), ControlMode::Pointer);
    states.register(ToggleId::ControlMode, false);
    assert_eq!(control_mode(&states), ControlMode::Pointer);
    states.toggle(ToggleId::ControlMode);
    assert_eq!(control_mode(&states), ControlMode::Keyboard);
    states.toggle(ToggleId::ControlMode);
    assert_eq!(control_mode(&states), ControlMode::Pointer);
}

#[test]
fn less_agrees_with_the_order_of_numbers() {
    let all = samples();
    for &a in &all {
        for &b in all.iter().take(60) {
            assert_eq!(less(a.to_bits(), b.to_bits()), a < b, "{:?} {:?}", a, b);
            assert_eq!(less(b.to_bits(), a.to_bits()), b < a, "{:?} {:?}", b, a);
        }
    }
}

#[test]
fn clamp_agrees_with_std() {
    for value in samples() {
        let held = f32::from_bits(clamp(value.to_bits(), MIN_DISTANCE, MAX_DISTANCE));
        assert!(same(held, value.clamp(0.2, 200.0)), "{:?}", value);
        let factor = f32::from_bits(zoom_factor(value.to_bits()));
        assert!(same(factor, value.clamp(0.2, 5.0)), "{:?}", value);
        let limited = f32::from_bits(limit_distance(value.to_bits()));
        assert!(same(limited, value.clamp(0.2, 200.0)), "{:?}", value);
    }
}

#[test]
fn at_least_agrees_with_std_max() {
    for value in samples() {
        let floored = f32::from_bits(floor_distance(value.to_bits()));
        assert!(same(floored, value.max(0.2)), "{:?}", value);
        let reset = f32::from_bits(at_least(value.to_bits(), RESET_FLOOR));
        assert!(same(reset, value.max(0.5)), "{:?}", value);
        let offset = fallback_offset(value.to_bits());
        assert_eq!((offset.x, offset.y), (0, 0));
        assert!(same(f32::from_bits(offset.z), value.max(1.0)), "{:?}", value);
    }
}

#[test]
fn is_degenerate_agrees_with_the_comparison() {
    for value in samples() {
        assert_eq!(is_degenerate(value.to_bits()), value < f32::EPSILON, "{:?}", value);
    }
}

#[test]
fn exact_limits() {
    assert_eq!(limit_distance(0.1f32.to_bits()), 0.2f32.to_bits());
    assert_eq!(limit_distance(250.0f32.to_bits()), 200.0f32.to_bits());
    assert_eq!(limit_distance(3.5f32.to_bits()), 3.5f32.to_bits());
    assert_eq!(zoom_factor(0.0f32.to_bits()), 0.2f32.to_bits());
    assert_eq!(zoom_factor(7.0f32.to_bits()), 5.0f32.to_bits());
    assert_eq!(zoom_factor(0.8f32.to_bits()), 0.8f32.to_bits());
    assert_eq!(floor_distance(0.0f32.to_bits()), 0.2f32.to_bits());
    assert_eq!(floor_distance(8.5f32.to_bits()), 8.5f32.to_bits());
}

fn zoom(distance: f32, delta: f32) -> f32 {
    let factor = f32::from_bits(zoom_factor((1.0 + delta).to_bits()));
    let floored = f32::from_bits(floor_distance(distance.to_bits()));
    f32::from_bits(limit_distance((floored * factor).to_bits()))
}

#[test]
fn zooming_in_never_goes_below_the_shortest_distance() {
    for delta in [-0.2f32, -0.5, -0.9, -1.0, -3.0, -1.0e9] {
        let mut distance = 1.0f32;
        for _ in 0..500 {
            distance = zoom(distance, delta);
            assert!(distance >= 0.2 && distance <= 200.0, "{:?} {:?}", delta, distance);
        }
        assert_eq!(distance, 0.2);
    }
}

#[test]
fn zooming_out_never_goes_above_the_longest_distance() {
    for delta in [0.2f32, 0.5, 1.0, 4.0, 100.0, f32::INFINITY] {
        let mut distance = 1.0f32;
        for _ in 0..500 {
            distance = zoom(distance, delta);
            assert!(distance >= 0.2 && distance <= 200.0, "{:?} {:?}", delta, distance);
        }
        assert_eq!(distance, 200.0);
    }
}

#[test]
fn one_zoom_step_scales_the_distance() {
    assert_eq!(zoom(1.0, -0.2), 0.8);
    assert_eq!(zoom(10.0, 0.5), 15.0);
    assert_eq!(zoom(10.0, 100.0), 50.0);
    assert_eq!(zoom(10.0, -5.0), 2.0);
}

#[test]
fn new_rig_looks_at_its_first_target() {
    let rig = CameraRig::new(start(), vector(1.0, 2.0, 3.0), 7.5f32.to_bits());
    assert_eq!(rig.target, vector(1.0, 2.0, 3.0));
    assert_eq!(rig.initial_target, vector(1.0, 2.0, 3.0));
    assert_eq!(rig.distance, 7.5f32.to_bits());
    assert_eq!(rig.initial, start());
}

fn moved() -> (CameraRig, Transform) {
    let separation = (75.0f32).sqrt();
    let mut rig = CameraRig::new(start(), vector(0.0, 0.0, 0.0), separation.to_bits());
    rig.target = vector(3.0, -1.0, 2.0);
    rig.distance = 42.0f32.to_bits();
    let transform = Transform {
        translation: vector(9.0, 9.0, 9.0),
        rotation: Rotation { x: 0, y: 0, z: 0, w: 1.0f32.to_bits() },
        scale: vector(2.0, 2.0, 2.0),
    };
    (rig, transform)
}

#[test]
fn reset_restores_the_first_placement() {
    let (mut rig, mut transform) = moved();
    rig.reset(&mut transform);
    assert_eq!(transform, start());
    assert_eq!(rig.target, vector(0.0, 0.0, 0.0));
    assert_eq!(f32::from_bits(rig.distance), (75.0f32).sqrt());
}

#[test]
fn reset_twice_equals_reset_once() {
    let (mut rig, mut transform) = moved();
    rig.reset(&mut transform);
    let (once_rig, once_transform) = (rig, transform);
    rig.reset(&mut transform);
    assert_eq!(rig, once_rig);
    assert_eq!(transform, once_transform);
}

#[test]
fn reset_floors_the_distance() {
    let mut rig = CameraRig::new(start(), vector(5.0, 5.0, 5.0), 0.0f32.to_bits());
    let mut transform = start();
    rig.reset(&mut transform);
    assert_eq!(f32::from_bits(rig.distance), 0.5);
}

#[test]
fn reset_button_resets_only_when_pressed() {
    let (mut rig, mut transform) = moved();
    let (before_rig, before_transform) = (rig, transform);
    assert_eq!(reset_camera_button_interaction(Interaction::Hovered, &mut rig, &mut transform), 20);
    assert_eq!((rig, transform), (before_rig, before_transform));
    assert_eq!(reset_camera_button_interaction(Interaction::Idle, &mut rig, &mut transform), 15);
    assert_eq!((rig, transform), (before_rig, before_transform));
    assert_eq!(reset_camera_button_interaction(Interaction::Pressed, &mut rig, &mut transform), 25);
    assert_eq!(transform, start());
    assert_eq!(rig.target, vector(0.0, 0.0, 0.0));
}

const NO_KEYS: Keys =
    Keys { left: false, right: false, up: false, down: false, zoom_in: false, zoom_out: false };
const ALL_KEYS: Keys =
    Keys { left: true, right: true, up: true, down: true, zoom_in: true, zoom_out: true };

#[test]
fn pointer_mode_with_primary_button_orbits() {
    let plan = camera_controls(
        ControlMode::Pointer,
        ALL_KEYS,
        Buttons { primary: true, secondary: false },
    );
    assert_eq!(
        plan,
        ControlPlan {
            key_yaw: 0,
            key_pitch: 0,
            key_zoom: 0,
            pointer_orbits: true,
            pointer_pans: false,
            wheel_zooms: true,
            discard_pointer: false,
        }
    );
}

#[test]
fn pointer_mode_with_secondary_button_pans() {
    let plan =
        camera_controls(ControlMode::Pointer, NO_KEYS, Buttons { primary: false, secondary: true });
    assert!(!plan.pointer_orbits);
    assert!(plan.pointer_pans);
    assert!(plan.wheel_zooms);
}

#[test]
fn keyboard_mode_discards_the_pointer() {
    let keys = Keys { left: true, up: false, down: true, zoom_in: true, ..NO_KEYS };
    let plan =
        camera_controls(ControlMode::Keyboard, keys, Buttons { primary: true, secondary: true });
    assert_eq!(
        plan,
        ControlPlan {
            key_yaw: 1,
            key_pitch: -1,
            key_zoom: -1,
            pointer_orbits: false,
            pointer_pans: false,
            wheel_zooms: false,
            discard_pointer: true,
        }
    );
}

#[test]
fn opposed_keys_cancel() {
    let plan = camera_controls(
        ControlMode::Keyboard,
        ALL_KEYS,
        Buttons { primary: false, secondary: false },
    );
    assert_eq!((plan.key_yaw, plan.key_pitch, plan.key_zoom), (0, 0, 0));
    assert_eq!(key_direction(true, false), 1);
    assert_eq!(key_direction(false, true), -1);
    assert_eq!(key_direction(false, false), 0);
    assert_eq!(key_direction(true, true), 0);
}

#[test]
fn gizmo_sits_in_the_lower_left_corner() {
    assert_eq!(gizmo_viewport(720), Viewport { x: 10, y: 510, width: 200, height: 200 });
    assert_eq!(gizmo_viewport(210), Viewport { x: 10, y: 0, width: 200, height: 200 });
}

#[test]
fn setup_registers_the_light_switch_and_builds_the_rig() {
    let mut states = ToggleStates::new();
    let rig = setup_cameras(&mut states, start(), (75.0f32).sqrt().to_bits());
    assert!(states.get(ToggleId::LightAttachment));
    assert!(!states.get(ToggleId::ControlMode));
    assert_eq!(control_mode(&states), ControlMode::Pointer);
    assert_eq!(rig.target, vector(0.0, 0.0, 0.0));
    assert_eq!(rig.initial_target, vector(0.0, 0.0, 0.0));
    assert_eq!(f32::from_bits(rig.distance), (75.0f32).sqrt());
    assert_eq!(rig.initial, start());
}
