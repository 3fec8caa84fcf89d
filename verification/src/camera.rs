//! Rays, their intersection tests, and the first-person camera controller.

use vstd::prelude::*;
use crate::scalar::Scalar;

verus! {

/// Encoding of the initial yaw, a quarter turn to the left: -90 degrees in
/// radians.
pub const INITIAL_YAW_BITS: u32 = 0xbfc9_0fdb;

/// Encoding of the mouse sensitivity, 0.003 radians per unit of motion.
pub const MOUSE_SENSITIVITY_BITS: u32 = 0x3b44_9ba6;

/// Encoding of the greatest pitch, 1.54 radians: a little short of straight
/// up, so that the view never flips over.
pub const PITCH_LIMIT_BITS: u32 = 0x3fc5_1eb8;

/// Encoding of the least pitch, -1.54 radians.
pub const NEG_PITCH_LIMIT_BITS: u32 = 0xbfc5_1eb8;

/// A point or direction in space.
#[derive(Clone, Copy, Debug)]
pub struct Vec3 {
    pub x: Scalar,
    pub y: Scalar,
    pub z: Scalar,
}

/// A half-line: where it starts and, as a unit vector, where it points.
#[derive(Clone, Copy, Debug)]
pub struct Ray {
    pub origin: Vec3,
    pub direction: Vec3,
}

/// Where a ray meets the six planes that bound a box: for each axis the
/// parametric distance to the plane through the box's least corner and to the
/// plane through its greatest corner, `(corner - origin) / direction` on that
/// axis. A ray that runs along a plane yields infinities or "not a number".
#[derive(Clone, Copy, Debug)]
pub struct SlabDistances {
    pub x_min: Scalar,
    pub x_max: Scalar,
    pub y_min: Scalar,
    pub y_max: Scalar,
    pub z_min: Scalar,
    pub z_max: Scalar,
}

/// The quantities of the Möller–Trumbore test of a ray against a triangle
/// with corners v0, v1, v2 and edges e1 = v1 - v0, e2 = v2 - v0.
#[derive(Clone, Copy, Debug)]
pub struct TriangleProbe {
    /// The determinant e1 · (direction × e2); near zero when the ray is
    /// parallel to the triangle's plane.
    pub det: Scalar,
    /// First barycentric coordinate of the point where the ray meets the plane.
    pub u: Scalar,
    /// Second barycentric coordinate.
    pub v: Scalar,
    /// The sum u + v.
    pub u_plus_v: Scalar,
    /// Parametric distance along the ray to the plane.
    pub t: Scalar,
}

impl SlabDistances {
    /// Distance at which the ray has entered the slabs of all three axes: the
    /// greatest of the per-axis nearer distances.
    pub open spec fn entry(self) -> Scalar {
        self.x_min.min(self.x_max).max(self.y_min.min(self.y_max)).max(
            self.z_min.min(self.z_max),
        )
    }

    /// Distance at which the ray leaves the first slab: the least of the
    /// per-axis farther distances.
    pub open spec fn exit(self) -> Scalar {
        self.x_min.max(self.x_max).min(self.y_min.max(self.y_max)).min(
            self.z_min.max(self.z_max),
        )
    }

    /// The ray passes through the box at or in front of its origin: it does
    /// not leave the box behind the origin, nor enter it after leaving.
    pub open spec fn hits(self) -> bool {
        !(self.exit().lt(Scalar::zero()) || self.entry().gt(self.exit()))
    }
}

impl TriangleProbe {
    /// The ray is parallel to the triangle's plane, as far as the test can
    /// tell: the determinant lies strictly between minus and plus epsilon.
    pub open spec fn parallel(self) -> bool {
        self.det.gt(Scalar::neg_epsilon()) && self.det.lt(Scalar::epsilon())
    }

    /// The point where the ray meets the plane lies outside the triangle.
    pub open spec fn outside(self) -> bool {
        ||| self.u.lt(Scalar::zero())
        ||| self.u.gt(Scalar::one())
        ||| self.v.lt(Scalar::zero())
        ||| self.u_plus_v.gt(Scalar::one())
    }

    /// The ray meets the triangle in front of its origin.
    pub open spec fn hits(self) -> bool {
        !self.parallel() && !self.outside() && self.t.gt(Scalar::epsilon())
    }
}

impl Ray {
    /// What the slab test returns: the entry distance, or zero where the
    /// origin lies inside the box, if the ray hits the box; else nothing.
    pub open spec fn aabb_distance(slabs: SlabDistances) -> Option<Scalar> {
        if slabs.hits() {
            Some(slabs.entry().max(Scalar::zero()))
        } else {
            None
        }
    }

    /// What the triangle test returns: the distance to the plane if the ray
    /// hits the triangle, else nothing.
    pub open spec fn triangle_distance(probe: TriangleProbe) -> Option<Scalar> {
        if probe.hits() {
            Some(probe.t)
        } else {
            None
        }
    }

    /// Slab test of a ray against an axis-aligned box, decided on the six
    /// plane distances. Returns the distance at which the ray enters the box,
    /// zero if it starts inside, or `None` if it misses the box or the box
    /// lies behind it.
    pub fn intersect_aabb(slabs: &SlabDistances) -> (hit: Option<Scalar>)
        ensures
            hit == Self::aabb_distance(*slabs),
            hit matches Some(d) ==> !d.is_nan() && d.ge(Scalar::zero()),
    {
        let tmin = slabs.x_min.min(slabs.x_max).max(slabs.y_min.min(slabs.y_max)).max(
            slabs.z_min.min(slabs.z_max),
        );
        let tmax = slabs.x_min.max(slabs.x_max).min(slabs.y_min.max(slabs.y_max)).min(
            slabs.z_min.max(slabs.z_max),
        );
        if tmax.lt(Scalar::zero()) || tmin.gt(tmax) {
            None
        } else {
            Some(tmin.max(Scalar::zero()))
        }
    }

    /// Möller–Trumbore test of a ray against a triangle, decided on the
    /// test's quantities. Returns the distance to the hit, or `None` if the
    /// ray is parallel to the triangle, passes outside it, or meets it behind
    /// or at the origin.
    pub fn intersect_triangle(probe: &TriangleProbe) -> (hit: Option<Scalar>)
        ensures
            hit == Self::triangle_distance(*probe),
            hit matches Some(t) ==> !t.is_nan() && t.gt(Scalar::epsilon()),
    {
        if probe.det.gt(Scalar::neg_epsilon()) && probe.det.lt(Scalar::epsilon()) {
            return None;
        }
        if probe.u.lt(Scalar::zero()) || probe.u.gt(Scalar::one()) {
            return None;
        }
        if probe.v.lt(Scalar::zero()) || probe.u_plus_v.gt(Scalar::one()) {
            return None;
        }
        if probe.t.gt(Scalar::epsilon()) {
            Some(probe.t)
        } else {
            None
        }
    }
}

/// The camera as the shader reads it: the view-projection matrix, column by
/// column, and the eye's position as a point.
#[derive(Clone, Copy, Debug)]
pub struct CameraUniform {
    pub view_proj: [[Scalar; 4]; 4],
    pub view_pos: [Scalar; 4],
}

impl CameraUniform {
    /// The uniform before any camera was put into it: the identity matrix,
    /// and the origin as a vector.
    pub open spec fn initial() -> CameraUniform {
        CameraUniform {
            view_proj: [
                [Scalar::one(), Scalar::zero(), Scalar::zero(), Scalar::zero()],
                [Scalar::zero(), Scalar::one(), Scalar::zero(), Scalar::zero()],
                [Scalar::zero(), Scalar::zero(), Scalar::one(), Scalar::zero()],
                [Scalar::zero(), Scalar::zero(), Scalar::zero(), Scalar::one()],
            ],
            view_pos: [Scalar::zero(), Scalar::zero(), Scalar::zero(), Scalar::zero()],
        }
    }

    /// The uniform before any camera was put into it.
    pub fn new() -> (u: CameraUniform)
        ensures
            u == Self::initial(),
    {
        let o = Scalar::zero();
        let i = Scalar::one();
        CameraUniform {
            view_proj: [[i, o, o, o], [o, i, o, o], [o, o, i, o], [o, o, o, i]],
            view_pos: [o, o, o, o],
        }
    }

    /// Puts a camera into the uniform: its view-projection matrix, and its
    /// eye with a fourth coordinate of one, which fills the vector out to
    /// sixteen bytes.
    pub fn update_view_proj(&mut self, view_proj: [[Scalar; 4]; 4], eye: Vec3)
        ensures
            *final(self) == (CameraUniform {
                view_proj,
                view_pos: [eye.x, eye.y, eye.z, Scalar::one()],
            }),
    {
        self.view_proj = view_proj;
        self.view_pos = [eye.x, eye.y, eye.z, Scalar::one()];
    }
}

/// The slab test returns nothing for a ray that points away from the box, so
/// that it has left every slab before its origin; and a distance that it
/// returns is that of the entry into the box, or zero where the entry lies
/// behind the origin.
pub proof fn lemma_aabb_distance(slabs: SlabDistances)
    ensures
        slabs.exit().lt(Scalar::zero()) ==> Ray::aabb_distance(slabs) is None,
        slabs.entry().gt(slabs.exit()) ==> Ray::aabb_distance(slabs) is None,
        Ray::aabb_distance(slabs) matches Some(d) ==> {
            &&& d.ge(Scalar::zero())
            &&& slabs.entry().ge(Scalar::zero()) ==> d == slabs.entry()
            &&& slabs.entry().lt(Scalar::zero()) ==> d == Scalar::zero()
        },
{
}

impl SlabDistances {
    /// None of the six distances is "not a number".
    pub open spec fn is_numeric(self) -> bool {
        &&& !self.x_min.is_nan() && !self.x_max.is_nan()
        &&& !self.y_min.is_nan() && !self.y_max.is_nan()
        &&& !self.z_min.is_nan() && !self.z_max.is_nan()
    }

    /// At distance `s` along the ray the point lies inside the box or on its
    /// surface: on each axis `s` lies between the distances to the two
    /// planes.
    pub open spec fn within(self, s: Scalar) -> bool {
        &&& self.x_min.min(self.x_max).le(s) && s.le(self.x_min.max(self.x_max))
        &&& self.y_min.min(self.y_max).le(s) && s.le(self.y_min.max(self.y_max))
        &&& self.z_min.min(self.z_max).le(s) && s.le(self.z_min.max(self.z_max))
    }

    /// `s` is the distance to one of the six planes that bound the box.
    pub open spec fn is_plane_distance(self, s: Scalar) -> bool {
        ||| s == self.x_min
        ||| s == self.x_max
        ||| s == self.y_min
        ||| s == self.y_max
        ||| s == self.z_min
        ||| s == self.z_max
    }
}

/// For a ray that starts outside the box and hits it, the distance returned
/// is that of the first contact: it is the distance to one of the box's
/// planes, the point at that distance lies on the box, and no point nearer
/// to the origin does. The ray hits the box exactly if some point of it, at
/// a distance of zero or more, lies in the box. All this for plane distances
/// that are numbers.
pub proof fn lemma_aabb_first_contact(slabs: SlabDistances, s: Scalar)
    requires
        slabs.is_numeric(),
    ensures
        Ray::aabb_distance(slabs) matches Some(d) ==> slabs.within(d),
        Ray::aabb_distance(slabs) matches Some(d) ==> (d.gt(Scalar::zero())
            ==> slabs.is_plane_distance(d)),
        Ray::aabb_distance(slabs) matches Some(d) ==> (s.lt(d) && s.ge(Scalar::zero())
            ==> !slabs.within(s)),
        slabs.within(s) && s.ge(Scalar::zero()) ==> Ray::aabb_distance(slabs) is Some,
        Ray::aabb_distance(slabs) is None ==> !(slabs.within(s) && s.ge(Scalar::zero())),
{
}

/// The triangle test returns nothing for a ray parallel to the triangle's
/// plane, whatever the other quantities are, nor for one that meets the
/// plane outside the triangle, nor for one that meets it behind its origin;
/// and a distance that it returns is positive.
pub proof fn lemma_triangle_distance(probe: TriangleProbe)
    ensures
        probe.parallel() ==> Ray::triangle_distance(probe) is None,
        probe.outside() ==> Ray::triangle_distance(probe) is None,
        probe.t.le(Scalar::zero()) ==> Ray::triangle_distance(probe) is None,
        Ray::triangle_distance(probe) matches Some(t) ==> t == probe.t && t.gt(Scalar::zero()),
{
}

/// A ray that meets the triangle's plane in front of its origin, from either
/// side, at a point whose barycentric coordinates lie in the triangle, hits
/// it at the distance to the plane; and where the test returns a distance,
/// the coordinates lie in the triangle, as far as they are numbers.
pub proof fn lemma_triangle_hit(probe: TriangleProbe)
    ensures
        ({
            &&& probe.det.ge(Scalar::epsilon()) || probe.det.le(Scalar::neg_epsilon())
            &&& Scalar::zero().le(probe.u) && probe.u.le(Scalar::one())
            &&& Scalar::zero().le(probe.v) && probe.u_plus_v.le(Scalar::one())
            &&& probe.t.gt(Scalar::epsilon())
        }) ==> Ray::triangle_distance(probe) == Some(probe.t),
        Ray::triangle_distance(probe) is Some ==> {
            &&& !probe.u.is_nan() ==> Scalar::zero().le(probe.u) && probe.u.le(Scalar::one())
            &&& !probe.v.is_nan() ==> Scalar::zero().le(probe.v)
            &&& !probe.u_plus_v.is_nan() ==> probe.u_plus_v.le(Scalar::one())
            &&& !probe.det.is_nan() ==> probe.det.ge(Scalar::epsilon()) || probe.det.le(
                Scalar::neg_epsilon(),
            )
        },
{
}

/// A physical key, by its place on the keyboard. Keys that the camera does
/// not use are all `Other`.
#[derive(Clone, Copy, Debug, PartialEq, Eq, Structural)]
pub enum KeyCode {
    KeyW,
    KeyA,
    KeyS,
    KeyD,
    KeyQ,
    KeyE,
    ArrowUp,
    ArrowLeft,
    ArrowDown,
    ArrowRight,
    Other,
}

/// Whether a key or button went down or came up.
#[derive(Clone, Copy, Debug, PartialEq, Eq, Structural)]
pub enum ElementState {
    Pressed,
    Released,
}

/// The direction of one camera movement.
#[derive(Clone, Copy, Debug, PartialEq, Eq, Structural)]
pub enum Axis {
    /// Where the camera looks.
    Forward,
    /// To the right of where the camera looks.
    Right,
    /// The world's vertical axis.
    Vertical,
}

/// One displacement of the camera: its length is the controller's speed.
#[derive(Clone, Copy, Debug, PartialEq, Eq, Structural)]
pub struct Step {
    pub axis: Axis,
    /// Whether the camera moves against the axis rather than along it.
    pub reverse: bool,
}

/// First-person camera control: which movement keys are held, and where the
/// camera looks.
#[derive(Clone, Copy, Debug)]
pub struct CameraController {
    pub speed: Scalar,
    pub is_forward_pressed: bool,
    pub is_backward_pressed: bool,
    pub is_left_pressed: bool,
    pub is_right_pressed: bool,
    pub is_up_pressed: bool,
    pub is_down_pressed: bool,
    /// Heading, in radians.
    pub yaw: Scalar,
    /// Elevation, in radians.
    pub pitch: Scalar,
    /// Radians turned per unit of pointer motion.
    pub mouse_sensitivity: Scalar,
}

impl KeyCode {
    /// Whether the camera reacts to the key.
    pub open spec fn is_bound(self) -> bool {
        self != KeyCode::Other
    }
}

/// A step, if its key is held.
pub open spec fn step_if(held: bool, axis: Axis, reverse: bool) -> Seq<Step> {
    if held {
        seq![Step { axis, reverse }]
    } else {
        Seq::empty()
    }
}

impl CameraController {
    /// The greatest pitch.
    pub open spec fn pitch_limit() -> Scalar {
        Scalar { bits: PITCH_LIMIT_BITS }
    }

    /// The least pitch.
    pub open spec fn neg_pitch_limit() -> Scalar {
        Scalar { bits: NEG_PITCH_LIMIT_BITS }
    }

    /// The controller before any input: no key held, looking along the
    /// negative z axis, level.
    pub open spec fn initial(speed: Scalar) -> CameraController {
        CameraController {
            speed,
            is_forward_pressed: false,
            is_backward_pressed: false,
            is_left_pressed: false,
            is_right_pressed: false,
            is_up_pressed: false,
            is_down_pressed: false,
            yaw: Scalar { bits: INITIAL_YAW_BITS },
            pitch: Scalar::zero(),
            mouse_sensitivity: Scalar { bits: MOUSE_SENSITIVITY_BITS },
        }
    }

    /// The controller after a key went down (`pressed`) or came up. W and
    /// the up arrow move forward, S and the down arrow backward, A and the
    /// left arrow to the left, D and the right arrow to the right; Q and E
    /// move along the vertical axis. Other keys change nothing.
    pub open spec fn with_key(self, keycode: KeyCode, pressed: bool) -> CameraController {
        match keycode {
            KeyCode::KeyW | KeyCode::ArrowUp => CameraController {
                is_forward_pressed: pressed,
                ..self
            },
            KeyCode::KeyA | KeyCode::ArrowLeft => CameraController {
                is_left_pressed: pressed,
                ..self
            },
            KeyCode::KeyS | KeyCode::ArrowDown => CameraController {
                is_backward_pressed: pressed,
                ..self
            },
            KeyCode::KeyD | KeyCode::ArrowRight => CameraController {
                is_right_pressed: pressed,
                ..self
            },
            KeyCode::KeyQ => CameraController { is_up_pressed: pressed, ..self },
            KeyCode::KeyE => CameraController { is_down_pressed: pressed, ..self },
            KeyCode::Other => self,
        }
    }

    /// The controller after the pointer turned the view to the given yaw and
    /// pitch: the yaw is taken as it is, the pitch limited to the interval
    /// between the least and the greatest pitch.
    pub open spec fn with_look(self, yaw: Scalar, pitch: Scalar) -> CameraController {
        CameraController {
            yaw,
            pitch: pitch.clamp(Self::neg_pitch_limit(), Self::pitch_limit()),
            ..self
        }
    }

    /// The displacements that the held keys ask for, in the order in which
    /// an update applies them: forward, backward, right, left, then the
    /// vertical axis, against it for the "up" key and along it for the
    /// "down" key.
    pub open spec fn steps(self) -> Seq<Step> {
        step_if(self.is_forward_pressed, Axis::Forward, false) + step_if(
            self.is_backward_pressed,
            Axis::Forward,
            true,
        ) + step_if(self.is_right_pressed, Axis::Right, false) + step_if(
            self.is_left_pressed,
            Axis::Right,
            true,
        ) + step_if(self.is_up_pressed, Axis::Vertical, true) + step_if(
            self.is_down_pressed,
            Axis::Vertical,
            false,
        )
    }

    /// A controller that moves the camera by `speed` per update.
    pub fn new(speed: Scalar) -> (c: CameraController)
        ensures
            c == Self::initial(speed),
    {
        CameraController {
            speed,
            is_forward_pressed: false,
            is_backward_pressed: false,
            is_left_pressed: false,
            is_right_pressed: false,
            is_up_pressed: false,
            is_down_pressed: false,
            yaw: Scalar::from_bits(INITIAL_YAW_BITS),
            pitch: Scalar::zero(),
            mouse_sensitivity: Scalar::from_bits(MOUSE_SENSITIVITY_BITS),
        }
    }

    /// Records that a key went down or came up. Returns whether the camera
    /// reacts to the key.
    pub fn process_keyboard(&mut self, keycode: KeyCode, state: ElementState) -> (handled: bool)
        ensures
            *final(self) == old(self).with_key(keycode, state == ElementState::Pressed),
            handled == keycode.is_bound(),
    {
        let is_pressed = state == ElementState::Pressed;
        match keycode {
            KeyCode::KeyW | KeyCode::ArrowUp => {
                self.is_forward_pressed = is_pressed;
                true
            },
            KeyCode::KeyA | KeyCode::ArrowLeft => {
                self.is_left_pressed = is_pressed;
                true
            },
            KeyCode::KeyS | KeyCode::ArrowDown => {
                self.is_backward_pressed = is_pressed;
                true
            },
            KeyCode::KeyD | KeyCode::ArrowRight => {
                self.is_right_pressed = is_pressed;
                true
            },
            KeyCode::KeyQ => {
                self.is_up_pressed = is_pressed;
                true
            },
            KeyCode::KeyE => {
                self.is_down_pressed = is_pressed;
                true
            },
            KeyCode::Other => false,
        }
    }

    /// Turns the view. `yaw` is the heading after the pointer's horizontal
    /// motion, the old yaw plus the motion times the sensitivity; `pitch` is
    /// the elevation after its vertical motion, the old pitch minus the
    /// motion times the sensitivity. The pitch is kept between its limits.
    pub fn process_mouse(&mut self, yaw: Scalar, pitch: Scalar)
        ensures
            *final(self) == old(self).with_look(yaw, pitch),
    {
        self.yaw = yaw;
        self.pitch = pitch.clamp(
            Scalar::from_bits(NEG_PITCH_LIMIT_BITS),
            Scalar::from_bits(PITCH_LIMIT_BITS),
        );
    }

    /// The displacements of this update, in the order in which they are
    /// applied to the camera's eye and target.
    pub fn update_camera(&self) -> (steps: Vec<Step>)
        ensures
            steps@ == self.steps(),
    {
        let mut steps: Vec<Step> = Vec::new();
        if self.is_forward_pressed {
            steps.push(Step { axis: Axis::Forward, reverse: false });
        }
        if self.is_backward_pressed {
            steps.push(Step { axis: Axis::Forward, reverse: true });
        }
        if self.is_right_pressed {
            steps.push(Step { axis: Axis::Right, reverse: false });
        }
        if self.is_left_pressed {
            steps.push(Step { axis: Axis::Right, reverse: true });
        }
        if self.is_up_pressed {
            steps.push(Step { axis: Axis::Vertical, reverse: true });
        }
        if self.is_down_pressed {
            steps.push(Step { axis: Axis::Vertical, reverse: false });
        }
        steps
    }
}

/// Turning the view never takes the pitch past its limits: after a turn it
/// lies between the least and the greatest pitch, unless the pitch handed in
/// was "not a number".
pub proof fn lemma_pitch_stays_limited(c: CameraController, yaw: Scalar, pitch: Scalar)
    requires
        !pitch.is_nan(),
    ensures
        CameraController::neg_pitch_limit().le(c.with_look(yaw, pitch).pitch),
        c.with_look(yaw, pitch).pitch.le(CameraController::pitch_limit()),
{
}

} // verus!
