//! The first-person camera: position plus yaw/pitch orientation, navigated
//! by cursor movement and by look-direction/strafe displacement.
//!
//! The camera is a state machine over opaque scalars. Every step that needs
//! floating-point arithmetic — the cursor delta, the angle accumulation,
//! the trigonometric rebuild of the look direction, the displacement — is
//! handed to the shell as an explicit request and its result handed back;
//! every decision — when a cursor event may rotate at all, how a candidate
//! pitch is clamped, which axis a movement key displaces along — is made
//! and proved here.
//!
//! Pitch is clamped to [-89, 89] degrees to avoid gimbal flip. The clamp
//! is exact: scalars are compared by a key that orders IEEE-754 bit
//! patterns as the values they encode, so the clamped pitch of any
//! candidate, including the not-a-number patterns, lies between the two
//! bounds.

use vstd::prelude::*;

use crate::scalar::Scalar;
use crate::scalar::Vec2;
use crate::scalar::Vec3;
use crate::scalar::BITS_ONE;
use crate::scalar::BITS_ZERO;

verus! {

/// Bit pattern of 89.0: the greatest pitch, in degrees.
pub const BITS_PITCH_MAX: u32 = 0x42B2_0000;

/// Bit pattern of -89.0: the least pitch, in degrees.
pub const BITS_PITCH_MIN: u32 = 0xC2B2_0000;

/// Bit pattern of -90.0: the yaw, in degrees, that looks down the negative
/// depth axis.
pub const BITS_NEG_NINETY: u32 = 0xC2B4_0000;

/// Bit pattern of -1.0.
pub const BITS_NEG_ONE: u32 = 0xBF80_0000;

/// Bit pattern of 2.5: the movement speed in units per second.
pub const BITS_SPEED: u32 = 0x4020_0000;

/// Bit pattern of 0.1: the cursor sensitivity in degrees per pixel.
pub const BITS_SENSITIVITY: u32 = 0x3DCC_CCCD;

/// Orders scalar bit patterns as the IEEE-754 values they encode: patterns
/// with the sign bit set (negative values, in falling bit order) map below
/// patterns without it (non-negative values, in rising bit order). On
/// well-formed values the order agrees with the usual one; the
/// not-a-number patterns sort beyond the infinities of their sign.
pub open spec fn spec_scalar_key(s: Scalar) -> int {
    if s.bits >= 0x8000_0000 {
        0xFFFF_FFFF - s.bits
    } else {
        s.bits + 0x8000_0000
    }
}

/// Whether a pitch lies between the two pitch bounds.
pub open spec fn spec_pitch_in_range(p: Scalar) -> bool {
    &&& spec_scalar_key(Scalar { bits: BITS_PITCH_MIN }) <= spec_scalar_key(p)
    &&& spec_scalar_key(p) <= spec_scalar_key(Scalar { bits: BITS_PITCH_MAX })
}

/// The pitch bound nearest to a candidate pitch: the candidate itself when
/// it lies between the bounds, the violated bound otherwise.
pub open spec fn spec_clamp_pitch(p: Scalar) -> Scalar {
    if spec_scalar_key(p) < spec_scalar_key(Scalar { bits: BITS_PITCH_MIN }) {
        Scalar { bits: BITS_PITCH_MIN }
    } else if spec_scalar_key(p) > spec_scalar_key(Scalar { bits: BITS_PITCH_MAX }) {
        Scalar { bits: BITS_PITCH_MAX }
    } else {
        p
    }
}

/// The clamped pitch of any candidate lies between the bounds, and a
/// candidate already between them is returned unchanged.
pub proof fn lemma_clamp_pitch(p: Scalar)
    ensures
        spec_pitch_in_range(spec_clamp_pitch(p)),
        spec_pitch_in_range(p) ==> spec_clamp_pitch(p) == p,
{
}

/// Clamps a candidate pitch to the pitch bounds, by bit-pattern order.
fn clamp_pitch(p: Scalar) -> (r: Scalar)
    ensures
        r == spec_clamp_pitch(p),
{
    let key: u32 = if p.bits >= 0x8000_0000 {
        0xFFFF_FFFFu32 - p.bits
    } else {
        p.bits + 0x8000_0000
    };
    // Keys of the two bounds, by the same rule.
    let key_min: u32 = 0xFFFF_FFFFu32 - BITS_PITCH_MIN;
    let key_max: u32 = BITS_PITCH_MAX + 0x8000_0000;
    if key < key_min {
        Scalar { bits: BITS_PITCH_MIN }
    } else if key > key_max {
        Scalar { bits: BITS_PITCH_MAX }
    } else {
        p
    }
}

/// A movement key.
#[allow(non_camel_case_types)]
#[derive(Clone, Copy, PartialEq, Eq, Structural, Debug)]
pub enum CameraMovement {
    FORWARD,
    BACKWARD,
    LEFT,
    RIGHT,
}

/// The axis a movement displaces along: the look direction itself, or the
/// normalised cross product of the look direction and the up vector (the
/// strafe direction).
#[derive(Clone, Copy, PartialEq, Eq, Structural, Debug)]
pub enum MoveAxis {
    Along { front: Vec3 },
    Strafe { front: Vec3, up: Vec3 },
}

/// A displacement request: starting from `base`, move `speed * delta_time`
/// units along the unit vector of `axis`, backwards when `backwards` is
/// set. The shell evaluates it and hands the new position back through
/// `set_position`.
#[derive(Clone, Copy, PartialEq, Eq, Structural, Debug)]
pub struct MoveStep {
    pub base: Vec3,
    pub axis: MoveAxis,
    pub backwards: bool,
    pub speed: Scalar,
    pub delta_time: Scalar,
}

/// A rotation request, produced by every cursor event after the first:
/// the cursor travelled from `prev` to `next`; each axis of the travel,
/// scaled by `sensitivity`, accumulates onto `yaw` and `pitch` — screen
/// travel downward raises the pitch. The shell evaluates the two candidate
/// angles and hands them back through `commit_orientation`.
#[derive(Clone, Copy, PartialEq, Eq, Structural, Debug)]
pub struct SpinStep {
    pub prev: Vec2,
    pub next: Vec2,
    pub yaw: Scalar,
    pub pitch: Scalar,
    pub sensitivity: Scalar,
}

/// The committed orientation: the look direction must be rebuilt from it
/// as the unit vector of
/// `(cos yaw * cos pitch, sin pitch, sin yaw * cos pitch)`, angles in
/// degrees, and handed back through `set_front`.
#[derive(Clone, Copy, PartialEq, Eq, Structural, Debug)]
pub struct OrientationAngles {
    pub yaw: Scalar,
    pub pitch: Scalar,
}

/// What a view matrix is built from: the eye, looking along `front`, with
/// `up` above.
#[derive(Clone, Copy, PartialEq, Eq, Structural, Debug)]
pub struct ViewRequest {
    pub eye: Vec3,
    pub front: Vec3,
    pub up: Vec3,
}

/// What a projection matrix is built from: a perspective with the given
/// vertical field of view and depth range, at the aspect ratio of the
/// window dimensions.
#[derive(Clone, Copy, PartialEq, Eq, Structural, Debug)]
pub struct ProjectionRequest {
    pub width: Scalar,
    pub height: Scalar,
    pub fovy: Scalar,
    pub znear: Scalar,
    pub zfar: Scalar,
}

/// The first-person camera.
#[derive(Clone, Copy, PartialEq, Eq, Structural, Debug)]
pub struct FirstPerson {
    pub position: Vec3,
    pub front: Vec3,
    pub up: Vec3,
    pub yaw: Scalar,
    pub pitch: Scalar,
    pub fovy: Scalar,
    pub znear: Scalar,
    pub zfar: Scalar,
    pub width: Scalar,
    pub height: Scalar,
    /// The cursor position of the most recent `spin_direction` call.
    pub last_pos: Vec2,
    /// Whether no `spin_direction` call has happened yet.
    pub first_move: bool,
    pub speed: Scalar,
    pub sensitivity: Scalar,
    pub delta_time: Scalar,
}

/// A fresh camera with the given window dimensions and perspective
/// parameters, as a specification value: at the origin, looking down the
/// negative depth axis (yaw -90, pitch 0).
pub open spec fn spec_camera_new(
    dimensions: (Scalar, Scalar),
    fov: Scalar,
    near: Scalar,
    far: Scalar,
) -> FirstPerson {
    FirstPerson {
        position: crate::scalar::spec_vec3_zeros(),
        front: Vec3 {
            x: Scalar { bits: BITS_ZERO },
            y: Scalar { bits: BITS_ZERO },
            z: Scalar { bits: BITS_NEG_ONE },
        },
        up: Vec3 {
            x: Scalar { bits: BITS_ZERO },
            y: Scalar { bits: BITS_ONE },
            z: Scalar { bits: BITS_ZERO },
        },
        yaw: Scalar { bits: BITS_NEG_NINETY },
        pitch: Scalar { bits: BITS_ZERO },
        fovy: fov,
        znear: near,
        zfar: far,
        width: dimensions.0,
        height: dimensions.1,
        last_pos: Vec2 { x: Scalar { bits: BITS_ZERO }, y: Scalar { bits: BITS_ZERO } },
        first_move: true,
        speed: Scalar { bits: BITS_SPEED },
        sensitivity: Scalar { bits: BITS_SENSITIVITY },
        delta_time: Scalar { bits: BITS_ZERO },
    }
}

impl FirstPerson {
    /// The camera's invariant: its pitch always lies between the pitch
    /// bounds.
    pub open spec fn wf(&self) -> bool {
        spec_pitch_in_range(self.pitch)
    }

    /// A fresh camera at the origin, looking down the negative depth axis
    /// (yaw -90, pitch 0), with the window dimensions and perspective
    /// parameters as given.
    pub fn new(dimensions: (Scalar, Scalar), fov: Scalar, near: Scalar, far: Scalar) -> (r:
        FirstPerson)
        ensures
            r == spec_camera_new(dimensions, fov, near, far),
            r.wf(),
    {
        FirstPerson {
            position: Vec3::zeros(),
            front: Vec3 { x: Scalar::zero(), y: Scalar::zero(), z: Scalar::new(BITS_NEG_ONE) },
            up: Vec3 { x: Scalar::zero(), y: Scalar::one(), z: Scalar::zero() },
            yaw: Scalar::new(BITS_NEG_NINETY),
            pitch: Scalar::zero(),
            fovy: fov,
            znear: near,
            zfar: far,
            width: dimensions.0,
            height: dimensions.1,
            last_pos: Vec2::zeros(),
            first_move: true,
            speed: Scalar::new(BITS_SPEED),
            sensitivity: Scalar::new(BITS_SENSITIVITY),
            delta_time: Scalar::zero(),
        }
    }

    /// Refreshes the frame time used by movement; called once per frame
    /// before any movement call.
    pub fn set_dt(&mut self, dt: Scalar)
        ensures
            *final(self) == (FirstPerson { delta_time: dt, ..*old(self) }),
    {
        self.delta_time = dt;
    }

    /// A cursor event. The very first call only records the cursor
    /// position, producing no rotation at all — this absorbs the initial
    /// jump of an unknown cursor. Every later call records the position
    /// and returns the rotation request for the travel since the previous
    /// call; orientation itself changes only when the evaluated angles
    /// come back through `commit_orientation`.
    pub fn spin_direction(&mut self, x: Scalar, y: Scalar) -> (r: Option<SpinStep>)
        ensures
            *final(self) == (FirstPerson {
                last_pos: Vec2 { x, y },
                first_move: false,
                ..*old(self)
            }),
            old(self).first_move ==> r is None,
            !old(self).first_move ==> r == Some(
                SpinStep {
                    prev: old(self).last_pos,
                    next: Vec2 { x, y },
                    yaw: old(self).yaw,
                    pitch: old(self).pitch,
                    sensitivity: old(self).sensitivity,
                },
            ),
            old(self).wf() ==> final(self).wf(),
    {
        let was_first = self.first_move;
        let prev = self.last_pos;
        self.last_pos = Vec2 { x, y };
        self.first_move = false;
        if was_first {
            Option::None
        } else {
            Option::Some(
                SpinStep {
                    prev,
                    next: Vec2 { x, y },
                    yaw: self.yaw,
                    pitch: self.pitch,
                    sensitivity: self.sensitivity,
                },
            )
        }
    }

    /// Accepts the evaluated candidate angles of a rotation request: the
    /// yaw is taken as it is, the pitch is clamped to the pitch bounds.
    /// Returns the committed orientation from which the shell must rebuild
    /// the look direction.
    pub fn commit_orientation(&mut self, raw_yaw: Scalar, raw_pitch: Scalar) -> (r:
        OrientationAngles)
        ensures
            *final(self) == (FirstPerson {
                yaw: raw_yaw,
                pitch: spec_clamp_pitch(raw_pitch),
                ..*old(self)
            }),
            r == (OrientationAngles { yaw: raw_yaw, pitch: spec_clamp_pitch(raw_pitch) }),
            final(self).wf(),
    {
        self.yaw = raw_yaw;
        self.pitch = clamp_pitch(raw_pitch);
        OrientationAngles { yaw: self.yaw, pitch: self.pitch }
    }

    /// Accepts the rebuilt look direction.
    pub fn set_front(&mut self, front: Vec3)
        ensures
            *final(self) == (FirstPerson { front, ..*old(self) }),
            old(self).wf() ==> final(self).wf(),
    {
        self.front = front;
    }

    /// The displacement that a movement key asks for: forward and backward
    /// travel along the look direction, left and right travel along the
    /// strafe direction, all by `speed * delta_time` units.
    pub fn move_direction(&self, direction: &CameraMovement) -> (r: MoveStep)
        ensures
            r.base == self.position,
            r.speed == self.speed,
            r.delta_time == self.delta_time,
            match *direction {
                CameraMovement::FORWARD => r.axis == (MoveAxis::Along { front: self.front })
                    && !r.backwards,
                CameraMovement::BACKWARD => r.axis == (MoveAxis::Along { front: self.front })
                    && r.backwards,
                CameraMovement::LEFT => r.axis == (MoveAxis::Strafe {
                    front: self.front,
                    up: self.up,
                }) && r.backwards,
                CameraMovement::RIGHT => r.axis == (MoveAxis::Strafe {
                    front: self.front,
                    up: self.up,
                }) && !r.backwards,
            },
    {
        let (axis, backwards): (MoveAxis, bool) = match direction {
            CameraMovement::FORWARD => (MoveAxis::Along { front: self.front }, false),
            CameraMovement::BACKWARD => (MoveAxis::Along { front: self.front }, true),
            CameraMovement::LEFT => (
                MoveAxis::Strafe { front: self.front, up: self.up },
                true,
            ),
            CameraMovement::RIGHT => (
                MoveAxis::Strafe { front: self.front, up: self.up },
                false,
            ),
        };
        MoveStep { base: self.position, axis, backwards, speed: self.speed, delta_time: self.delta_time }
    }

    /// Accepts the evaluated new position of a displacement request.
    pub fn set_position(&mut self, position: Vec3)
        ensures
            *final(self) == (FirstPerson { position, ..*old(self) }),
            old(self).wf() ==> final(self).wf(),
    {
        self.position = position;
    }

    /// What the view matrix is built from: the camera's position, look
    /// direction and up vector.
    pub fn get_view(&self) -> (r: ViewRequest)
        ensures
            r == (ViewRequest { eye: self.position, front: self.front, up: self.up }),
    {
        ViewRequest { eye: self.position, front: self.front, up: self.up }
    }

    /// What the projection matrix is built from: the window dimensions and
    /// the perspective parameters the camera was created with.
    pub fn get_projection(&self) -> (r: ProjectionRequest)
        ensures
            r == (ProjectionRequest {
                width: self.width,
                height: self.height,
                fovy: self.fovy,
                znear: self.znear,
                zfar: self.zfar,
            }),
    {
        ProjectionRequest {
            width: self.width,
            height: self.height,
            fovy: self.fovy,
            znear: self.znear,
            zfar: self.zfar,
        }
    }
}

} // verus!
