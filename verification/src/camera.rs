//! The camera: projection and view matrices, orientation state, and the
//! precomputed per-pixel world-space rays.
//!
//! The ray array always holds exactly `width * height` rays, row-major,
//! and is regenerated in full whenever the view or projection changes.
//! Input is consumed as an explicit per-frame snapshot (`InputState`), so
//! an update is a pure function of the previous state, the elapsed time
//! and that snapshot; the `moved` flag reports whether anything changed,
//! and is consumed by the renderer to reset its accumulation.

use vstd::prelude::*;
use vstd::arithmetic::div_mod::lemma_fundamental_div_mod_converse;
use crate::fixed::{fxadd, fxsub, fxmul, fxdiv, fxneg, fxclamp, tdiv, fx_add, fx_sub,
    fx_mul, fx_div, fx_neg, fx_clamp, FX_ONE, FX_TWO};
use crate::trig::{sin_s, cos_s, fx_sin, fx_cos, FX_PI};
use crate::matrix::Matrix;
use crate::ray::Ray;
use crate::vector::Vector;

verus! {

/// Units moved per second of elapsed time while a movement key is down.
pub const FX_MOVEMENT_SPEED: i64 = 49152;

/// Radians turned per second of elapsed time while a look key is down.
pub const FX_ROTATION_SPEED: i64 = 65536;

/// A quarter turn, the pitch clamp bound (pi over four, truncated).
pub const FX_QUARTER_PI: i64 = 51471;

/// Fixed-point radians per whole degree (pi over 180, rounded).
pub const FX_DEG_TO_RAD: i64 = 1144;

/// One frame's input snapshot: movement keys, look keys, and an optional
/// pointer drag given as the offset from the screen center.
#[derive(Clone, Copy, Debug)]
pub struct InputState {
    pub move_forward: bool,
    pub move_back: bool,
    pub move_left: bool,
    pub move_right: bool,
    pub move_up: bool,
    pub move_down: bool,
    pub look_left: bool,
    pub look_right: bool,
    pub look_up: bool,
    pub look_down: bool,
    pub drag: Option<(i64, i64)>,
}

impl InputState {
    pub fn idle() -> (r: InputState)
        ensures r == InputState::idle_s(),
    {
        InputState {
            move_forward: false,
            move_back: false,
            move_left: false,
            move_right: false,
            move_up: false,
            move_down: false,
            look_left: false,
            look_right: false,
            look_up: false,
            look_down: false,
            drag: None,
        }
    }

    pub open spec fn idle_s() -> InputState {
        InputState {
            move_forward: false,
            move_back: false,
            move_left: false,
            move_right: false,
            move_up: false,
            move_down: false,
            look_left: false,
            look_right: false,
            look_up: false,
            look_down: false,
            drag: None,
        }
    }

    /// Whether any part of the snapshot asks for a change.
    pub open spec fn any(self) -> bool {
        self.move_forward || self.move_back || self.move_left || self.move_right
            || self.move_up || self.move_down
            || self.look_left || self.look_right || self.look_up || self.look_down
            || self.drag is Some
    }
}

pub struct Camera {
    // camera matrices
    pub projection: Matrix,
    pub projection_inverse: Matrix,
    pub view: Matrix,
    pub view_inverse: Matrix,

    // camera configuration
    pub fov: i64,
    pub near: i64,
    pub far: i64,
    pub width: usize,
    pub height: usize,

    // camera look
    pub moved: bool,
    pub pitch: i64,
    pub yaw: i64,

    // depth-of-field effect
    pub depth: i64,
    pub show_depth: bool,

    // camera position
    pub position: Vector,
    pub direction: Vector,
    pub right: Vector,

    // camera view
    pub rays: Vec<Ray>,
}

impl Camera {
    /// Axis sizes a ray grid can be built over: nonzero, and small enough
    /// that pixel indices convert exactly to fixed point and the grid
    /// length fits a usize.
    pub open spec fn dims_ok(self) -> bool {
        1 <= self.width <= 0x4000 && 1 <= self.height <= 0x4000
    }

    /// The ray array covers exactly one ray per pixel.
    pub open spec fn wf(self) -> bool {
        self.rays@.len() == self.width * self.height
    }

    /// The fixed world up direction.
    pub open spec fn world_up() -> Vector {
        Vector { x: 0, y: FX_ONE, z: 0, w: FX_ONE }
    }

    /// A pixel coordinate mapped to normalized device coordinates in
    /// [-1, 1): the pixel's fraction of the axis, doubled and shifted.
    pub open spec fn ndc_coord(p: int, n: int) -> i64 {
        fxsub(fxmul(fxdiv(p as i64, n as i64), FX_TWO), FX_ONE)
    }

    /// The world-space ray of pixel (x, y): map to normalized device
    /// coordinates, take the inverse projection through `apply`, divide
    /// by the resulting w, normalize, zero w to mark a direction, and
    /// take the inverse view through `apply`.
    #[verifier::opaque]
    pub open spec fn pixel_ray_s(proj_inv: Matrix, view_inv: Matrix, position: Vector,
                                 width: int, height: int, x: int, y: int) -> Ray {
        let xc = Camera::ndc_coord(x, width);
        let yc = Camera::ndc_coord(y, height);
        let extended = Vector { x: xc, y: yc, z: FX_ONE, w: FX_ONE };
        let target = Matrix::apply_s(proj_inv, extended);
        let homogenized = Vector::scale_s(target, fxdiv(FX_ONE, target.w));
        let normalized = Vector::normalize_s(homogenized);
        let marked = Vector { w: 0, ..normalized };
        let direction = Matrix::apply_s(view_inv, marked);
        Ray { origin: position, direction }
    }

    /// The whole ray grid, row-major.
    pub open spec fn rays_seq(proj_inv: Matrix, view_inv: Matrix, position: Vector,
                              width: int, height: int) -> Seq<Ray> {
        Seq::new((width * height) as nat, |k: int| Camera::pixel_ray_s(
            proj_inv, view_inv, position, width, height, k % width, k / width))
    }

    pub fn rays(&self) -> (r: &Vec<Ray>)
        ensures r == &self.rays,
    {
        &self.rays
    }

    pub fn view(&self) -> (r: &Matrix)
        ensures r == &self.view,
    {
        &self.view
    }

    pub fn view_inverse(&self) -> (r: &Matrix)
        ensures r == &self.view_inverse,
    {
        &self.view_inverse
    }

    pub fn position(&self) -> (r: Vector)
        ensures r == self.position,
    {
        self.position
    }

    pub fn direction(&self) -> (r: Vector)
        ensures r == self.direction,
    {
        self.direction
    }

    pub fn width(&self) -> (r: usize)
        ensures r == self.width,
    {
        self.width
    }

    pub fn height(&self) -> (r: usize)
        ensures r == self.height,
    {
        self.height
    }

    pub fn recompute_view(&mut self)
        ensures
            final(self).view == Matrix::lookat_s(old(self).position,
                Vector::add_s(old(self).position, old(self).direction), Camera::world_up()),
            final(self).view_inverse == Matrix::inverse_s(final(self).view),
            *final(self) == (Camera {
                view: final(self).view,
                view_inverse: final(self).view_inverse,
                ..*old(self)
            }),
    {
        let at = Vector::add(&self.position, &self.direction);
        let up = Vector::new(0, FX_ONE, 0, FX_ONE);
        self.view = Matrix::lookat(&self.position, &at, &up);
        self.view_inverse = Matrix::inverse(&self.view);
    }

    pub fn recompute_projection(&mut self)
        requires old(self).dims_ok(),
        ensures
            final(self).projection == Matrix::perspective_s(
                fxmul(old(self).fov, FX_DEG_TO_RAD),
                fxdiv(old(self).width as i64, old(self).height as i64),
                old(self).near, old(self).far),
            final(self).projection_inverse == Matrix::inverse_s(final(self).projection),
            *final(self) == (Camera {
                projection: final(self).projection,
                projection_inverse: final(self).projection_inverse,
                ..*old(self)
            }),
    {
        let aspect_ratio = fx_div(self.width as i64, self.height as i64);
        let fov_radians = fx_mul(self.fov, FX_DEG_TO_RAD);
        self.projection = Matrix::perspective(fov_radians, aspect_ratio, self.near, self.far);
        self.projection_inverse = Matrix::inverse(&self.projection);
    }

    /// The world-space ray of one pixel, as `pixel_ray_s` states it.
    pub fn pixel_ray(proj_inv: &Matrix, view_inv: &Matrix, position: Vector,
                     width: usize, height: usize, x: usize, y: usize) -> (r: Ray)
        requires
            1 <= width <= 0x4000 && 1 <= height <= 0x4000,
            x < width && y < height,
        ensures
            r == Camera::pixel_ray_s(*proj_inv, *view_inv, position,
                width as int, height as int, x as int, y as int),
    {
        proof { reveal(Camera::pixel_ray_s); }
        let x_coord = fx_sub(fx_mul(fx_div(x as i64, width as i64), FX_TWO), FX_ONE);
        let y_coord = fx_sub(fx_mul(fx_div(y as i64, height as i64), FX_TWO), FX_ONE);

        let extended: Vector = Vector::new(x_coord, y_coord, FX_ONE, FX_ONE);
        let target_v = Matrix::apply(proj_inv, &extended);

        let homogenized = Vector::scale(&target_v, fx_div(FX_ONE, target_v.w()));

        let mut normalized = Vector::normalize(&homogenized);
        normalized.set_w(0);

        let direction = Matrix::apply(view_inv, &normalized);

        Ray::new(position, direction)
    }

    pub fn recompute_rays(&mut self)
        requires old(self).dims_ok(),
        ensures
            final(self).rays@ == Camera::rays_seq(old(self).projection_inverse,
                old(self).view_inverse, old(self).position,
                old(self).width as int, old(self).height as int),
            final(self).wf(),
            *final(self) == (Camera { rays: final(self).rays, ..*old(self) }),
    {
        let width = self.width;
        let height = self.height;
        let ghost target = Camera::rays_seq(self.projection_inverse, self.view_inverse,
            self.position, width as int, height as int);
        let mut rays: Vec<Ray> = Vec::new();
        for y in 0..height
            invariant
                width == self.width && height == self.height,
                self.dims_ok(),
                target == Camera::rays_seq(self.projection_inverse, self.view_inverse,
                    self.position, width as int, height as int),
                rays@.len() == y * width,
                forall|k: int| 0 <= k < rays@.len() ==> rays@[k] == target[k],
        {
            for x in 0..width
                invariant
                    width == self.width && height == self.height,
                    self.dims_ok(),
                    y < height,
                    target == Camera::rays_seq(self.projection_inverse, self.view_inverse,
                        self.position, width as int, height as int),
                    rays@.len() == y * width + x,
                    forall|k: int| 0 <= k < rays@.len() ==> rays@[k] == target[k],
            {
                let ray = Camera::pixel_ray(&self.projection_inverse, &self.view_inverse,
                    self.position, width, height, x, y);
                proof {
                    lemma_fundamental_div_mod_converse(
                        (y * width + x) as int, width as int, y as int, x as int);
                    assert(y * width + x < width * height) by (nonlinear_arith)
                        requires 0 <= x < width && 0 <= y < height;
                    assert(target[(y * width + x) as int] == ray);
                }
                rays.push(ray);
            }
            proof {
                assert((y + 1) * width == y * width + width) by (nonlinear_arith);
            }
        }
        proof {
            assert(rays@.len() == target.len()) by (nonlinear_arith)
                requires
                    rays@.len() == height * width,
                    target.len() == (width * height) as nat;
            assert(rays@ =~= target);
        }
        self.rays = rays;
    }

    pub fn new(fov: i64, near: i64, far: i64, width: usize, height: usize) -> (r: Camera)
        requires
            1 <= width <= 0x4000,
            1 <= height <= 0x4000,
        ensures
            r.projection == Matrix::perspective_s(fxmul(fov, FX_DEG_TO_RAD),
                fxdiv(width as i64, height as i64), near, far),
            r.projection_inverse == Matrix::inverse_s(r.projection),
            r.view == Matrix::lookat_s(r.position,
                Vector::add_s(r.position, r.direction), Camera::world_up()),
            r.view_inverse == Matrix::inverse_s(r.view),
            r.fov == fov && r.near == near && r.far == far,
            r.width == width && r.height == height,
            r.moved == false && r.pitch == 0 && r.yaw == 0,
            r.depth == 655360 && r.show_depth == false,
            r.position == Vector::zero_s(),
            r.direction == (Vector { x: 0, y: 0, z: FX_ONE, w: FX_ONE }),
            r.right == Vector::zero_s(),
            r.rays@ == Camera::rays_seq(r.projection_inverse, r.view_inverse, r.position,
                width as int, height as int),
            r.wf(),
            r.dims_ok(),
    {
        let mut camera = Camera {
            projection: Matrix::identity(),
            projection_inverse: Matrix::identity(),
            view: Matrix::identity(),
            view_inverse: Matrix::identity(),
            fov,
            near,
            far,
            width,
            height,
            moved: false,
            pitch: 0,
            yaw: 0,
            depth: 655360,
            show_depth: false,
            position: Vector::zero(),
            direction: Vector::new(0, 0, FX_ONE, FX_ONE),
            right: Vector::zero(),
            rays: Vec::new(),
        };

        camera.recompute_projection();
        camera.recompute_view();
        camera.recompute_rays();

        camera
    }

    /// The walking frame: the horizontal projection of the current
    /// facing direction, normalized.
    pub open spec fn flat_forward(self) -> Vector {
        Vector::normalize_s(Vector {
            x: self.direction.x,
            y: 0,
            z: self.direction.z,
            w: FX_ONE,
        })
    }

    pub open spec fn flat_right(self) -> Vector {
        Vector::cross_s(Camera::world_up(), self.flat_forward())
    }

    /// Where one update step leaves the position: discrete moves along
    /// the walking frame and world up, scaled by speed and elapsed time.
    pub open spec fn moved_position(self, delta: i64, input: InputState) -> Vector {
        let step = fxmul(FX_MOVEMENT_SPEED, delta);
        let forward = self.flat_forward();
        let right = self.flat_right();
        let up = Camera::world_up();
        let p0 = self.position;
        let p1 = if input.move_forward {
            Vector::add_s(p0, Vector::scale_s(forward, step))
        } else if input.move_back {
            Vector::sub_s(p0, Vector::scale_s(forward, step))
        } else {
            p0
        };
        let p2 = if input.move_left {
            Vector::sub_s(p1, Vector::scale_s(right, step))
        } else if input.move_right {
            Vector::add_s(p1, Vector::scale_s(right, step))
        } else {
            p1
        };
        if input.move_up {
            Vector::add_s(p2, Vector::scale_s(up, step))
        } else if input.move_down {
            Vector::sub_s(p2, Vector::scale_s(up, step))
        } else {
            p2
        }
    }

    /// Where one update step leaves the yaw: discrete turning, fully
    /// overridden by an active pointer drag.
    pub open spec fn turned_yaw(self, delta: i64, input: InputState) -> i64 {
        let step = fxmul(FX_ROTATION_SPEED, delta);
        let y0 = if input.look_left {
            fxsub(self.yaw, step)
        } else if input.look_right {
            fxadd(self.yaw, step)
        } else {
            self.yaw
        };
        match input.drag {
            Some((dx, dy)) => fxmul(fxmul(dx, FX_ROTATION_SPEED), delta),
            None => y0,
        }
    }

    /// Where one update step leaves the pitch: discrete turning, fully
    /// overridden by an active pointer drag, clamped to a quarter turn.
    pub open spec fn turned_pitch(self, delta: i64, input: InputState) -> i64 {
        let step = fxmul(FX_ROTATION_SPEED, delta);
        let p0 = if input.look_up {
            fxadd(self.pitch, step)
        } else if input.look_down {
            fxsub(self.pitch, step)
        } else {
            self.pitch
        };
        let p1 = match input.drag {
            Some((dx, dy)) => fxmul(fxmul(dy, FX_ROTATION_SPEED), delta),
            None => p0,
        };
        fxclamp(p1, (-FX_QUARTER_PI) as i64, FX_QUARTER_PI)
    }

    /// The facing direction of a given pitch and yaw on the unit sphere,
    /// normalized.
    pub open spec fn direction_from(pitch: i64, yaw: i64) -> Vector {
        Vector::normalize_s(Vector {
            x: fxmul(cos_s(pitch), sin_s(yaw)),
            y: fxneg(sin_s(pitch)),
            z: fxmul(cos_s(pitch), cos_s(yaw)),
            w: 0,
        })
    }

    /// `post` is `pre` after one update step under `delta` elapsed time
    /// and the `input` snapshot: position, yaw, pitch and facing move as
    /// `moved_position`, `turned_yaw`, `turned_pitch` and
    /// `direction_from` say; `moved` reports whether the snapshot asked
    /// for any change, and exactly then the view matrices and the whole
    /// ray grid are rebuilt from the new state.
    pub open spec fn updated(pre: Camera, post: Camera, delta: i64, input: InputState) -> bool {
        &&& post.position == pre.moved_position(delta, input)
        &&& post.yaw == pre.turned_yaw(delta, input)
        &&& post.pitch == pre.turned_pitch(delta, input)
        &&& post.direction == Camera::direction_from(post.pitch, post.yaw)
        &&& post.moved == input.any()
        &&& post.fov == pre.fov
        &&& post.near == pre.near && post.far == pre.far
        &&& post.width == pre.width && post.height == pre.height
        &&& post.projection == pre.projection
        &&& post.projection_inverse == pre.projection_inverse
        &&& post.depth == pre.depth
        &&& post.show_depth == pre.show_depth
        &&& post.right == pre.right
        &&& (input.any() ==> {
            &&& post.view == Matrix::lookat_s(post.position,
                Vector::add_s(post.position, post.direction), Camera::world_up())
            &&& post.view_inverse == Matrix::inverse_s(post.view)
            &&& post.rays@ == Camera::rays_seq(post.projection_inverse,
                post.view_inverse, post.position, post.width as int, post.height as int)
            &&& post.wf()
        })
        &&& (!input.any() ==> {
            &&& post.view == pre.view
            &&& post.view_inverse == pre.view_inverse
            &&& post.rays == pre.rays
        })
        &&& (pre.wf() ==> post.wf())
        &&& post.dims_ok()
    }

    /// Every clause of the `updated` relation implies the relation.
    pub proof fn lemma_updated_intro(pre: Camera, post: Camera, delta: i64, input: InputState)
        requires
            post.position == pre.moved_position(delta, input),
            post.yaw == pre.turned_yaw(delta, input),
            post.pitch == pre.turned_pitch(delta, input),
            post.direction == Camera::direction_from(post.pitch, post.yaw),
            post.moved == input.any(),
            post.fov == pre.fov,
            post.near == pre.near && post.far == pre.far,
            post.width == pre.width && post.height == pre.height,
            post.projection == pre.projection,
            post.projection_inverse == pre.projection_inverse,
            post.depth == pre.depth,
            post.show_depth == pre.show_depth,
            post.right == pre.right,
            input.any() ==> {
                &&& post.view == Matrix::lookat_s(post.position,
                    Vector::add_s(post.position, post.direction), Camera::world_up())
                &&& post.view_inverse == Matrix::inverse_s(post.view)
                &&& post.rays@ == Camera::rays_seq(post.projection_inverse,
                    post.view_inverse, post.position,
                    post.width as int, post.height as int)
                &&& post.wf()
            },
            !input.any() ==> {
                &&& post.view == pre.view
                &&& post.view_inverse == pre.view_inverse
                &&& post.rays == pre.rays
            },
            pre.wf() ==> post.wf(),
            post.dims_ok(),
        ensures Camera::updated(pre, post, delta, input),
    {
    }

    /// One frame's camera update from an input snapshot; the clauses
    /// together are the `updated` relation.
    #[verifier::rlimit(100)]
    pub fn update(&mut self, delta: i64, input: &InputState)
        requires old(self).dims_ok(),
        ensures
            final(self).position == old(self).moved_position(delta, *input),
            final(self).yaw == old(self).turned_yaw(delta, *input),
            final(self).pitch == old(self).turned_pitch(delta, *input),
            final(self).direction == Camera::direction_from(
                final(self).pitch, final(self).yaw),
            final(self).moved == input.any(),
            final(self).fov == old(self).fov,
            final(self).near == old(self).near && final(self).far == old(self).far,
            final(self).width == old(self).width && final(self).height == old(self).height,
            final(self).projection == old(self).projection,
            final(self).projection_inverse == old(self).projection_inverse,
            final(self).depth == old(self).depth,
            final(self).show_depth == old(self).show_depth,
            final(self).right == old(self).right,
            input.any() ==> {
                &&& final(self).view == Matrix::lookat_s(final(self).position,
                    Vector::add_s(final(self).position, final(self).direction),
                    Camera::world_up())
                &&& final(self).view_inverse == Matrix::inverse_s(final(self).view)
                &&& final(self).rays@ == Camera::rays_seq(final(self).projection_inverse,
                    final(self).view_inverse, final(self).position,
                    final(self).width as int, final(self).height as int)
                &&& final(self).wf()
            },
            !input.any() ==> {
                &&& final(self).view == old(self).view
                &&& final(self).view_inverse == old(self).view_inverse
                &&& final(self).rays == old(self).rays
            },
            old(self).wf() ==> final(self).wf(),
            final(self).dims_ok(),
    {
        self.moved = false;

        let up = Vector::new(0, FX_ONE, 0, FX_ONE);
        let dir = Vector::new(self.direction.x(), 0, self.direction.z(), FX_ONE);
        let forward = Vector::normalize(&dir);
        let right = Vector::cross(&up, &forward);

        let step = fx_mul(FX_MOVEMENT_SPEED, delta);

        if input.move_forward {
            self.position = Vector::add(&self.position, &Vector::scale(&forward, step));
            self.moved = true;
        } else if input.move_back {
            self.position = Vector::sub(&self.position, &Vector::scale(&forward, step));
            self.moved = true;
        }

        if input.move_left {
            self.position = Vector::sub(&self.position, &Vector::scale(&right, step));
            self.moved = true;
        } else if input.move_right {
            self.position = Vector::add(&self.position, &Vector::scale(&right, step));
            self.moved = true;
        }

        if input.move_up {
            self.position = Vector::add(&self.position, &Vector::scale(&up, step));
            self.moved = true;
        } else if input.move_down {
            self.position = Vector::sub(&self.position, &Vector::scale(&up, step));
            self.moved = true;
        }

        let rot_step = fx_mul(FX_ROTATION_SPEED, delta);

        if input.look_left {
            self.yaw = fx_sub(self.yaw, rot_step);
            self.moved = true;
        } else if input.look_right {
            self.yaw = fx_add(self.yaw, rot_step);
            self.moved = true;
        }

        if input.look_up {
            self.pitch = fx_add(self.pitch, rot_step);
            self.moved = true;
        } else if input.look_down {
            self.pitch = fx_sub(self.pitch, rot_step);
            self.moved = true;
        }

        // a press-drag fully re-centers orientation from the offset to
        // the screen center, overwriting rather than accumulating
        match input.drag {
            Some((dx, dy)) => {
                self.yaw = fx_mul(fx_mul(dx, FX_ROTATION_SPEED), delta);
                self.pitch = fx_mul(fx_mul(dy, FX_ROTATION_SPEED), delta);
                self.moved = true;
            },
            None => {},
        }

        self.pitch = fx_clamp(self.pitch, -FX_QUARTER_PI, FX_QUARTER_PI);

        let cos_pitch = fx_cos(self.pitch);
        let sin_pitch = fx_sin(self.pitch);

        let cos_yaw = fx_cos(self.yaw);
        let sin_yaw = fx_sin(self.yaw);

        self.direction = Vector::new(
            fx_mul(cos_pitch, sin_yaw),
            fx_neg(sin_pitch),
            fx_mul(cos_pitch, cos_yaw),
            0,
        );

        self.direction = Vector::normalize(&self.direction);

        if self.moved {
            self.recompute_view();
            self.recompute_rays();
        }
    }
}

/// For a symmetric view (even axis sizes) and the matrix shapes the
/// camera pipeline produces — an inverse projection that sends the
/// center's depth/w input to no lateral component, backward in view
/// space with a nonnegative w, and an inverse view whose view depth
/// axis maps onto the (negated) facing axis alone — the ray through the
/// exact center pixel starts at the camera position, has no lateral or
/// w component, and points forward. Fixed directions are not unit
/// length, so this pins "the center ray is the facing direction" up to
/// nonnegative scale.
#[verifier::rlimit(100)]
pub proof fn lemma_center_pixel_ray(proj_inv: Matrix, view_inv: Matrix, position: Vector,
                                    width: int, height: int)
    requires
        2 <= width <= 0x4000 && width % 2 == 0,
        2 <= height <= 0x4000 && height % 2 == 0,
        ({
            let target = Matrix::apply_s(proj_inv,
                Vector { x: 0, y: 0, z: FX_ONE, w: FX_ONE });
            target.x == 0 && target.y == 0 && target.z <= 0 && target.w >= 0
        }),
        view_inv.m20 == 0 && view_inv.m21 == 0 && view_inv.m23 == 0,
        view_inv.m22 <= 0,
    ensures
        ({
            let r = Camera::pixel_ray_s(proj_inv, view_inv, position, width, height,
                width / 2, height / 2);
            &&& r.origin == position
            &&& r.direction.x == 0
            &&& r.direction.y == 0
            &&& r.direction.w == 0
            &&& r.direction.z >= 0
        }),
{
    reveal(Camera::pixel_ray_s);
    lemma_center_ndc_zero(width);
    lemma_center_ndc_zero(height);
    assert forall|s: i64| #[trigger] fxmul(0i64, s) == 0 by {
        assert(0 * s == 0);
    }
    assert forall|s: i64| #[trigger] fxmul(s, 0i64) == 0 by {
        assert(s * 0 == 0);
    }
    let extended = Vector { x: 0, y: 0, z: FX_ONE, w: FX_ONE };
    let target = Matrix::apply_s(proj_inv, extended);
    let recipw = fxdiv(FX_ONE, target.w);
    crate::fixed::lemma_fxdiv_nonneg(FX_ONE, target.w);
    let homogenized = Vector::scale_s(target, recipw);
    crate::fixed::lemma_fxmul_nonpos_nonneg(target.z, recipw);
    assert(homogenized.x == 0 && homogenized.y == 0 && homogenized.z <= 0);
    crate::vector::lemma_length2_nonneg(homogenized);
    crate::fixed::lemma_fxsqrt_bounds(Vector::length2_s(homogenized));
    let magnitude = Vector::length_s(homogenized);
    let normalized = Vector::normalize_s(homogenized);
    if magnitude != 0 {
        crate::fixed::lemma_fxdiv_nonneg(FX_ONE, magnitude);
        crate::fixed::lemma_fxmul_nonpos_nonneg(homogenized.z, fxdiv(FX_ONE, magnitude));
    }
    let marked = Vector { w: 0, ..normalized };
    assert(marked.x == 0 && marked.y == 0 && marked.z <= 0 && marked.w == 0);
    crate::fixed::lemma_fxmul_nonpos_nonpos(marked.z, view_inv.m22);
}

/// The exact center of an even axis maps to device coordinate zero.
proof fn lemma_center_ndc_zero(n: int)
    requires 2 <= n <= 0x4000 && n % 2 == 0,
    ensures Camera::ndc_coord(n / 2, n) == 0,
{
    let k = n / 2;
    let p = (k as i64) * FX_ONE;
    assert(p == (n as i64) * 32768);
    assert((n as i64) * 32768 / (n as int) == 32768) by (nonlinear_arith)
        requires 2 <= n <= 0x4000;
    assert(fxdiv((n / 2) as i64, n as i64) == 32768);
    assert(fxmul(32768i64, FX_TWO) == FX_ONE) by {
        assert(32768 * FX_TWO == 0x1_0000_0000int);
        assert(0x1_0000_0000int / (FX_ONE as int) == FX_ONE as int) by (nonlinear_arith);
        assert(tdiv(32768 * FX_TWO, FX_ONE as int) == FX_ONE as int);
    }
}

} // verus!
