//! What the keyboard asks of the camera.

use vstd::prelude::*;
use crate::fixed::Fixed;
use crate::linalg::Vec3;

verus! {

/// The raw value of the angle of one orbit step: a fiftieth of pi, to the nearest
/// representable number.
pub const ROTATION_SPEED: i32 = 4118;

/// How far one key press moves the center of the view.
pub const MOVEMENT_SPEED: i32 = 10;

/// Which of the camera's keys are down.
#[derive(Clone, Copy, Debug, PartialEq, Eq, Structural)]
pub struct Keys {
    pub left: bool,
    pub right: bool,
    pub w: bool,
    pub s: bool,
    pub a: bool,
    pub d: bool,
    pub q: bool,
    pub e: bool,
    pub up: bool,
    pub down: bool,
}

/// One move of the camera.
#[derive(Clone, Copy, Debug, PartialEq, Eq, Structural)]
pub enum CameraMove {
    /// Turn around the center by a yaw and a pitch.
    Orbit { yaw: Fixed, pitch: Fixed },
    /// Move the center of the view.
    MoveCenter(Vec3),
    /// Move toward the center, or away from it where the number is negative.
    Zoom(Fixed),
}

/// The move of a key, if the key is down.
pub open spec fn when(down: bool, camera_move: CameraMove) -> Seq<CameraMove> {
    if down {
        seq![camera_move]
    } else {
        Seq::empty()
    }
}

/// The movement that the keys A, D, Q and E add up to: A and D pull left and right, Q and E up
/// and down, and opposite keys cancel.
pub open spec fn movement(keys: Keys) -> Vec3 {
    let left = if keys.a {
        -MOVEMENT_SPEED
    } else {
        0
    };
    let right = if keys.d {
        MOVEMENT_SPEED as int
    } else {
        0
    };
    let up = if keys.q {
        MOVEMENT_SPEED as int
    } else {
        0
    };
    let down = if keys.e {
        -MOVEMENT_SPEED
    } else {
        0
    };
    Vec3 {
        x: Fixed::from_scaled((left + right) * 65536),
        y: Fixed::from_scaled((up + down) * 65536),
        z: Fixed::zero(),
    }
}

/// The moves that the keys ask for, in the order in which the camera makes them: the orbit
/// steps of the arrow keys left and right and of W and S, then one move of the center if the
/// movement of A, D, Q and E is not zero, then the zoom steps of the arrow keys up and down.
pub open spec fn camera_moves(keys: Keys) -> Seq<CameraMove> {
    let step = Fixed { raw: ROTATION_SPEED };
    let zoom = Fixed::spec_from_ratio(1, 10);
    let still = Vec3 { x: Fixed::zero(), y: Fixed::zero(), z: Fixed::zero() };
    when(keys.left, CameraMove::Orbit { yaw: step, pitch: Fixed::zero() }) + when(
        keys.right,
        CameraMove::Orbit { yaw: step.spec_neg(), pitch: Fixed::zero() },
    ) + when(keys.w, CameraMove::Orbit { yaw: Fixed::zero(), pitch: step.spec_neg() }) + when(
        keys.s,
        CameraMove::Orbit { yaw: Fixed::zero(), pitch: step },
    ) + when(movement(keys) != still, CameraMove::MoveCenter(movement(keys))) + when(
        keys.up,
        CameraMove::Zoom(zoom),
    ) + when(keys.down, CameraMove::Zoom(zoom.spec_neg()))
}

/// Appends the move of a key if the key is down.
fn push_when(moves: &mut Vec<CameraMove>, down: bool, camera_move: CameraMove)
    ensures
        final(moves)@ == old(moves)@ + when(down, camera_move),
{
    if down {
        moves.push(camera_move);
    }
    assert(moves@ =~= old(moves)@ + when(down, camera_move));
}

/// One of two opposite keys' pull along an axis.
fn pull(down: bool, amount: i32) -> (r: i32)
    ensures
        r == if down {
            amount
        } else {
            0
        },
{
    if down {
        amount
    } else {
        0
    }
}

/// Adds up the movement that the keys A, D, Q and E ask for.
fn key_movement(keys: &Keys) -> (r: Vec3)
    ensures
        r == movement(*keys),
{
    let x: i32 = pull(keys.a, -MOVEMENT_SPEED) + pull(keys.d, MOVEMENT_SPEED);
    let y: i32 = pull(keys.q, MOVEMENT_SPEED) + pull(keys.e, -MOVEMENT_SPEED);
    Vec3 { x: Fixed::from_int(x), y: Fixed::from_int(y), z: Fixed::zero() }
}

/// Says which moves the keys that are down ask of the camera, in order.
pub fn handle_input(keys: &Keys) -> (moves: Vec<CameraMove>)
    ensures
        moves@ == camera_moves(*keys),
{
    let rotation_speed: Fixed = Fixed::from_raw(ROTATION_SPEED);
    let zoom_speed: Fixed = Fixed::from_ratio(1, 10);
    let zero: Fixed = Fixed::zero();
    let movement: Vec3 = key_movement(keys);
    let moving: bool = movement.x.raw != 0 || movement.y.raw != 0;
    let mut moves: Vec<CameraMove> = Vec::new();
    push_when(&mut moves, keys.left, CameraMove::Orbit { yaw: rotation_speed, pitch: zero });
    push_when(&mut moves, keys.right, CameraMove::Orbit { yaw: rotation_speed.neg(), pitch: zero });
    push_when(&mut moves, keys.w, CameraMove::Orbit { yaw: zero, pitch: rotation_speed.neg() });
    push_when(&mut moves, keys.s, CameraMove::Orbit { yaw: zero, pitch: rotation_speed });
    push_when(&mut moves, moving, CameraMove::MoveCenter(movement));
    push_when(&mut moves, keys.up, CameraMove::Zoom(zoom_speed));
    push_when(&mut moves, keys.down, CameraMove::Zoom(zoom_speed.neg()));
    assert(moves@ =~= camera_moves(*keys));
    moves
}

} // verus!
