//! The path tracer: closest-hit scene intersection, bounded recursive
//! shading evaluated as an explicit two-phase loop, temporal accumulation,
//! tone mapping and 8-bit export.
//!
//! Scene objects are analytic spheres; an intersection refers back to its
//! object by index into the scene's collection, valid only within the
//! trace that produced it. Shading consumes antialiasing jitter as a
//! sequence of fixed-point fractions in `[0, 1)`; `render` draws them from
//! the process's random generator through a trusted wrapper, and the rest
//! of the pipeline is a pure function of those fractions that the
//! `shade_s` spec states exactly.

use vstd::prelude::*;
use rand::Rng;
use crate::fixed::{fxadd, fxsub, fxmul, fxdiv, fxneg, fxsqrt, fxclamp, fxmax0, idiv, tdiv,
    fx_add, fx_sub, fx_mul, fx_div, fx_neg, fx_sqrt, fx_clamp, fx_max0, fx_idiv,
    FX_ONE, FX_TWO, FX_INF};
use crate::camera::{Camera, InputState};
use crate::ray::Ray;
use crate::vector::Vector;

verus! {

/// Four, as a fixed-point scalar (the quadratic's `4ac`).
pub const FX_FOUR: i64 = 262144;

/// One half, as a fixed-point scalar.
pub const FX_HALF: i64 = 32768;

/// Antialiasing jitter amplitude applied to primary directions (0.01,
/// rounded to the fixed-point grid).
pub const FX_NOISE: i64 = 655;

/// Offset pushing a reflection origin off its surface (0.001, rounded up
/// to the fixed-point grid).
pub const FX_EPSILON: i64 = 66;

/// Exposure of the tone map.
pub const FX_EXPOSURE: i64 = 65536;

#[derive(Clone, Copy, Debug)]
pub struct Pixel {
    pub color: Vector,
    pub depth: i64,
}

#[derive(Clone, Copy, Debug)]
pub struct Material {
    pub diffuse: Vector,
    pub specular: Vector,
    pub emissive: Vector,
    pub metallic: i64,
    pub roughness: i64,
}

#[derive(Clone, Copy, Debug)]
pub struct Sphere {
    pub position: Vector,
    pub radius: i64,
    pub material: Material,
}

/// A trace result. `object` indexes the scene's object collection and is
/// meaningful only for the scene the trace ran against; a miss carries
/// `None` and the infinite-distance sentinel.
#[derive(Clone, Copy, Debug)]
pub struct Intersection {
    pub color: Vector,
    pub position: Vector,
    pub normal: Vector,
    pub distance: i64,
    pub exit: i64,
    pub object: Option<usize>,
}

pub struct Scene {
    pub objects: Vec<Sphere>,
    pub sun: Vector,
}

/// Everything one shading bounce saves before descending a level: the
/// intersection, the hit material's fields, and the incidence terms.
#[derive(Clone, Copy, Debug)]
pub struct Bounce {
    pub inter: Intersection,
    pub base_color: Vector,
    pub metallic: i64,
    pub roughness: i64,
    pub cos_theta: i64,
    pub fresnel: i64,
}

/// Relies on rand's `thread_rng` and `Rng::gen_range`: a uniform draw
/// from `[0, 65536)`, a fixed-point fraction of one. Nothing is assumed
/// beyond the range.
#[verifier::external_body]
fn random_fraction() -> (r: i64)
    ensures 0 <= r < FX_ONE,
{
    rand::thread_rng().gen_range(0i64..65536i64)
}

#[verifier::external_type_specification]
#[verifier::external_body]
pub struct ExInstant(std::time::Instant);

/// Relies on `std::time::Instant::now`: an opaque timestamp of the
/// monotonic clock.
#[verifier::external_body]
fn instant_now() -> std::time::Instant {
    std::time::Instant::now()
}

/// Relies on `Instant::elapsed` and `Duration::as_micros`: microseconds
/// since the timestamp, narrowed to 64 bits. Nothing is assumed of the
/// clock's value.
#[verifier::external_body]
fn elapsed_micros(start: &std::time::Instant) -> u64 {
    start.elapsed().as_micros() as u64
}

pub struct Renderer {
    pub frametime: u64,
    pub frame_count: u32,

    pub accumulate: bool,
    pub accumulated_data: Vec<Vector>,
    pub framebuffer: Vec<Vector>,

    pub camera: Camera,

    pub closest: Intersection,

    pub scene: Scene,
}

impl Renderer {
    /// The buffers cover the camera's pixel grid and the frame counter
    /// never reaches zero, so the accumulation average is always defined.
    pub open spec fn wf(self) -> bool {
        &&& self.camera.wf()
        &&& self.camera.dims_ok()
        &&& self.accumulated_data@.len() == self.camera.width * self.camera.height
        &&& self.framebuffer@.len() == self.camera.width * self.camera.height
        &&& self.frame_count >= 1
    }

    /// The miss sentinel: infinite entry and exit distance, no object.
    pub open spec fn miss_s() -> Intersection {
        Intersection {
            color: Vector::zero_s(),
            position: Vector::zero_s(),
            normal: Vector::zero_s(),
            distance: FX_INF,
            exit: FX_INF,
            object: None,
        }
    }

    pub fn miss() -> (r: Intersection)
        ensures r == Renderer::miss_s(),
    {
        Intersection {
            color: Vector::zero(),
            position: Vector::zero(),
            normal: Vector::zero(),
            distance: FX_INF,
            exit: FX_INF,
            object: None,
        }
    }

    /// Placeholder direct-lighting term of the reference design.
    pub fn direct(intersection: &Intersection) -> (r: Vector)
        ensures r == Vector::zero_s(),
    {
        Vector::zero()
    }

    /// Placeholder indirect-lighting term of the reference design.
    pub fn indirect(intersection: &Intersection) -> (r: Vector)
        ensures r == Vector::zero_s(),
    {
        Vector::zero()
    }

    /// A direction nudged by three jitter fractions scaled by `noise`.
    pub open spec fn jitter_s(v: Vector, noise: i64, samples: Seq<i64>, pos: int) -> Vector {
        Vector {
            x: fxadd(v.x, fxmul(samples[pos], noise)),
            y: fxadd(v.y, fxmul(samples[pos + 1], noise)),
            z: fxadd(v.z, fxmul(samples[pos + 2], noise)),
            w: v.w,
        }
    }

    /// Jitter a vector by the next three fractions of the sample stream.
    pub fn jitter(vec1: &Vector, noise: i64, samples: &Vec<i64>, pos: usize) -> (r: Vector)
        requires pos + 3 <= samples@.len(),
        ensures r == Renderer::jitter_s(*vec1, noise, samples@, pos as int),
    {
        let n = samples.len();
        Vector::new(
            fx_add(vec1.x(), fx_mul(samples[pos], noise)),
            fx_add(vec1.y(), fx_mul(samples[pos + 1], noise)),
            fx_add(vec1.z(), fx_mul(samples[pos + 2], noise)),
            vec1.w(),
        )
    }

    /// The metallic coefficient behind an intersection's back-reference,
    /// zero on a miss.
    pub open spec fn metallic_of(objects: Seq<Sphere>, inter: Intersection) -> i64 {
        match inter.object {
            Some(i) => objects[i as int].material.metallic,
            None => 0,
        }
    }

    /// Schlick's approximation with the metallic coefficient standing in
    /// for the relative index of refraction, and a total-internal-
    /// reflection branch returning full reflectance.
    #[verifier::opaque]
    pub open spec fn fresnel_s(objects: Seq<Sphere>, inter: Intersection, ray: Ray) -> i64 {
        let direction = Vector::scale_s(ray.direction, (-FX_ONE) as i64);
        let coefficient = Renderer::metallic_of(objects, inter);
        let cos_incident = Vector::dot_s(inter.normal, direction);
        let sin_theta_squared = fxmul(fxmul(coefficient, coefficient),
            fxsub(FX_ONE, fxmul(cos_incident, cos_incident)));
        if sin_theta_squared > FX_ONE {
            FX_ONE
        } else {
            let cos_theta = fxsqrt(fxsub(FX_ONE, sin_theta_squared));
            let r0 = fxdiv(fxsub(FX_ONE, coefficient), fxadd(FX_ONE, coefficient));
            let r0_squared = fxmul(r0, r0);
            let partial = fxsub(FX_ONE, cos_theta);
            let power = fxmul(fxmul(fxmul(fxmul(partial, partial), partial), partial), partial);
            let r = fxadd(r0_squared, fxmul(fxsub(FX_ONE, r0_squared), power));
            fxsub(FX_ONE, fxclamp(r, 0, FX_ONE))
        }
    }

    /// The intersected object's index must refer into the scene that
    /// produced the intersection.
    pub fn fresnel(&self, intersection: &Intersection, ray: &Ray) -> (r: i64)
        requires
            intersection.object matches Some(i) ==> i < self.scene.objects@.len(),
        ensures r == Renderer::fresnel_s(self.scene.objects@, *intersection, *ray),
    {
        proof { reveal(Renderer::fresnel_s); }
        let direction = Vector::scale(&ray.direction, -FX_ONE);

        let metallic: i64 = match intersection.object {
            Some(i) => self.scene.objects[i].material.metallic,
            None => 0,
        };

        let cos_incident = Vector::dot(&intersection.normal, &direction);
        let coefficient = metallic;
        let sin_theta_squared = fx_mul(fx_mul(coefficient, coefficient),
            fx_sub(FX_ONE, fx_mul(cos_incident, cos_incident)));

        if sin_theta_squared > FX_ONE {
            // total internal reflection
            return FX_ONE;
        }

        proof { crate::vector::lemma_fxmul_self_nonneg(cos_incident); }
        proof {
            crate::vector::lemma_fxmul_self_nonneg(coefficient);
        }
        let cos_theta = fx_sqrt(fx_sub(FX_ONE, sin_theta_squared));

        let r0 = fx_div(fx_sub(FX_ONE, coefficient), fx_add(FX_ONE, coefficient));
        let r0_squared = fx_mul(r0, r0);

        let partial = fx_sub(FX_ONE, cos_theta);
        let power = fx_mul(fx_mul(fx_mul(fx_mul(partial, partial), partial), partial), partial);

        let r = fx_add(r0_squared, fx_mul(fx_sub(FX_ONE, r0_squared), power));

        fx_sub(FX_ONE, fx_clamp(r, 0, FX_ONE))
    }

    /// The bounce ray off an intersection: origin pushed a little along
    /// the normal to avoid re-hitting the surface, direction mirrored
    /// about the normal.
    pub open spec fn reflect_s(inter: Intersection, ray: Ray) -> Ray {
        let extruded = Vector::scale_s(inter.normal, FX_EPSILON);
        let position = Vector::add_s(inter.position, extruded);
        let direction = Vector::reflect_s(ray.direction, inter.normal);
        Ray { origin: position, direction }
    }

    pub fn reflect(intersection: &Intersection, ray: &Ray) -> (r: Ray)
        ensures r == Renderer::reflect_s(*intersection, *ray),
    {
        let extruded = Vector::scale(&intersection.normal, FX_EPSILON);
        let position = Vector::add(&intersection.position, &extruded);
        let direction = Vector::reflect(&ray.direction, &intersection.normal);
        Ray::new(position, direction)
    }

    /// The ray-sphere quadratic's discriminant, over the standard
    /// `a t^2 + b t + c` coefficients.
    #[verifier::opaque]
    pub open spec fn sphere_disc(ray: Ray, s: Sphere) -> i64 {
        let difference = Vector::sub_s(ray.origin, s.position);
        let a = Vector::dot_s(ray.direction, ray.direction);
        let b = fxmul(FX_TWO, Vector::dot_s(ray.direction, difference));
        let c = fxsub(Vector::dot_s(difference, difference), fxmul(s.radius, s.radius));
        fxsub(fxmul(b, b), fxmul(fxmul(FX_FOUR, a), c))
    }

    /// The near root of the quadratic, the entry distance.
    #[verifier::opaque]
    pub open spec fn sphere_t1(ray: Ray, s: Sphere) -> i64
        recommends Renderer::sphere_disc(ray, s) >= 0,
    {
        let difference = Vector::sub_s(ray.origin, s.position);
        let a = Vector::dot_s(ray.direction, ray.direction);
        let b = fxmul(FX_TWO, Vector::dot_s(ray.direction, difference));
        fxdiv(fxsub(fxneg(b), fxsqrt(Renderer::sphere_disc(ray, s))), fxmul(FX_TWO, a))
    }

    /// The far root of the quadratic, the exit distance.
    #[verifier::opaque]
    pub open spec fn sphere_t2(ray: Ray, s: Sphere) -> i64
        recommends Renderer::sphere_disc(ray, s) >= 0,
    {
        let difference = Vector::sub_s(ray.origin, s.position);
        let a = Vector::dot_s(ray.direction, ray.direction);
        let b = fxmul(FX_TWO, Vector::dot_s(ray.direction, difference));
        fxdiv(fxadd(fxneg(b), fxsqrt(Renderer::sphere_disc(ray, s))), fxmul(FX_TWO, a))
    }

    /// Object `j` is a hit candidate for the ray: real discriminant,
    /// positive entry distance, and a finite distance that can beat the
    /// sentinel.
    pub open spec fn cand(objects: Seq<Sphere>, ray: Ray, j: int) -> bool {
        &&& 0 <= j < objects.len()
        &&& Renderer::sphere_disc(ray, objects[j]) > 0
        &&& Renderer::sphere_t1(ray, objects[j]) > 0
        &&& Renderer::sphere_t1(ray, objects[j]) < FX_INF
    }

    /// The intersection record of a candidate hit on object `i`.
    #[verifier::opaque]
    pub open spec fn hit_intersection(ray: Ray, s: Sphere, i: int) -> Intersection {
        let t1 = Renderer::sphere_t1(ray, s);
        let t2 = Renderer::sphere_t2(ray, s);
        let progress = Vector::scale_s(ray.direction, t1);
        let hit = Vector::add_s(ray.origin, progress);
        let toward = Vector::sub_s(hit, s.position);
        let normal = Vector::normalize_s(toward);
        Intersection {
            color: s.material.diffuse,
            position: hit,
            normal,
            distance: t1,
            exit: t2,
            object: Some(i as usize),
        }
    }

    /// The closest-hit fold over the scene in iteration order: a
    /// candidate replaces the best so far only if strictly nearer.
    pub open spec fn trace_fold(objects: Seq<Sphere>, ray: Ray, i: int,
                                best: Intersection) -> Intersection
        decreases objects.len() - i,
    {
        if i < 0 || i >= objects.len() {
            best
        } else {
            let s = objects[i];
            let next = if Renderer::sphere_disc(ray, s) > 0
                && Renderer::sphere_t1(ray, s) > 0
                && Renderer::sphere_t1(ray, s) < best.distance {
                Renderer::hit_intersection(ray, s, i)
            } else {
                best
            };
            Renderer::trace_fold(objects, ray, i + 1, next)
        }
    }

    /// What a trace of the ray against the scene returns.
    pub open spec fn trace_s(objects: Seq<Sphere>, ray: Ray) -> Intersection {
        Renderer::trace_fold(objects, ray, 0, Renderer::miss_s())
    }

    /// One ray-sphere test: the quadratic, and on a real discriminant
    /// with a positive near root, the entry distance with the candidate
    /// intersection record for object `idx`.
    fn probe_sphere(ray: &Ray, object: &Sphere, idx: usize) -> (r: Option<(i64, Intersection)>)
        ensures
            (Renderer::sphere_disc(*ray, *object) > 0
                && Renderer::sphere_t1(*ray, *object) > 0)
                ==> r == Some((Renderer::sphere_t1(*ray, *object),
                    Renderer::hit_intersection(*ray, *object, idx as int))),
            !(Renderer::sphere_disc(*ray, *object) > 0
                && Renderer::sphere_t1(*ray, *object) > 0)
                ==> r is None,
            r matches Some((t1, c)) ==> {
                &&& t1 == Renderer::sphere_t1(*ray, *object)
                &&& c.distance == t1
                &&& c.object == Some(idx)
            },
    {
        proof {
            reveal(Renderer::sphere_disc);
            reveal(Renderer::sphere_t1);
            reveal(Renderer::sphere_t2);
            reveal(Renderer::hit_intersection);
        }
        let difference = Vector::sub(&ray.origin, &object.position);

        let a = Vector::dot(&ray.direction, &ray.direction);
        let b = fx_mul(FX_TWO, Vector::dot(&ray.direction, &difference));
        let c = fx_sub(Vector::dot(&difference, &difference),
            fx_mul(object.radius, object.radius));

        let d = fx_sub(fx_mul(b, b), fx_mul(fx_mul(FX_FOUR, a), c));

        if d > 0 {
            let sq = fx_sqrt(d);
            let t1 = fx_div(fx_sub(fx_neg(b), sq), fx_mul(FX_TWO, a));
            let t2 = fx_div(fx_add(fx_neg(b), sq), fx_mul(FX_TWO, a));

            if t1 > 0 {
                let progress = Vector::scale(&ray.direction, t1);
                let hit = Vector::add(&ray.origin, &progress);

                let toward = Vector::sub(&hit, &object.position);
                let normal = Vector::normalize(&toward);

                Some((t1, Intersection {
                    color: object.material.diffuse,
                    position: hit,
                    normal,
                    distance: t1,
                    exit: t2,
                    object: Some(idx),
                }))
            } else {
                None
            }
        } else {
            None
        }
    }

    /// Closest-hit query: the nearest candidate wins, ties broken by
    /// iteration order (first wins); no candidate gives the miss
    /// sentinel. The quantified clauses state that minimality outright.
    pub fn trace(&mut self, ray: &Ray) -> (r: Intersection)
        ensures
            *final(self) == *old(self),
            r == Renderer::trace_s(old(self).scene.objects@, *ray),
            (forall|j: int| !Renderer::cand(old(self).scene.objects@, *ray, j))
                ==> r == Renderer::miss_s(),
            r.object matches Some(w) ==> {
                let objects = old(self).scene.objects@;
                &&& Renderer::cand(objects, *ray, w as int)
                &&& r == Renderer::hit_intersection(*ray, objects[w as int], w as int)
                &&& forall|j: int| Renderer::cand(objects, *ray, j)
                    ==> r.distance <= Renderer::sphere_t1(*ray, objects[j])
                &&& forall|j: int| Renderer::cand(objects, *ray, j) && j < w as int
                    ==> Renderer::sphere_t1(*ray, objects[j]) > r.distance
            },
            r.object is None ==> r == Renderer::miss_s()
                && (forall|j: int| !Renderer::cand(old(self).scene.objects@, *ray, j)),
    {
        let ghost objects = self.scene.objects@;
        let mut distance: i64 = FX_INF;
        let mut intersection = Renderer::miss();

        let n = self.scene.objects.len();
        let mut idx: usize = 0;
        while idx < n
            invariant
                n == objects.len(),
                objects == self.scene.objects@,
                idx <= n,
                distance == intersection.distance,
                Renderer::trace_s(objects, *ray)
                    == Renderer::trace_fold(objects, *ray, idx as int, intersection),
                match intersection.object {
                    Some(w) => {
                        &&& (w as int) < idx as int
                        &&& Renderer::cand(objects, *ray, w as int)
                        &&& intersection
                            == Renderer::hit_intersection(*ray, objects[w as int], w as int)
                        &&& forall|j: int| 0 <= j < idx && Renderer::cand(objects, *ray, j)
                            ==> intersection.distance <= Renderer::sphere_t1(*ray, objects[j])
                        &&& forall|j: int| Renderer::cand(objects, *ray, j) && j < w as int
                            ==> Renderer::sphere_t1(*ray, objects[j]) > intersection.distance
                        &&& intersection.distance < FX_INF
                    },
                    None => {
                        &&& intersection == Renderer::miss_s()
                        &&& forall|j: int| 0 <= j < idx ==> !Renderer::cand(objects, *ray, j)
                    },
                },
            decreases n - idx,
        {
            let object = &self.scene.objects[idx];

            match Renderer::probe_sphere(ray, object, idx) {
                Some((t1, candidate)) => {
                    if t1 < distance {
                        distance = t1;
                        intersection = candidate;
                    }
                },
                None => {},
            }

            idx += 1;
        }

        if distance == FX_INF {
            return Renderer::miss();
        }

        intersection
    }

    /// One gamma-corrected channel. The reference exponent `1/2.2` is
    /// carried as `29/64 = 1/4 + 1/8 + 1/16 + 1/64` (0.4531 against
    /// 0.4545, within a seventh of a percent), the closest dyadic sum a
    /// composition of fixed-point square roots reaches at this depth; a
    /// channel without a real power (negative radiance) is floored at
    /// zero.
    pub open spec fn gamma_channel_s(c: i64) -> i64 {
        if c < 0 {
            0
        } else {
            let quarter = fxsqrt(fxsqrt(c));
            let eighth = fxsqrt(quarter);
            let sixteenth = fxsqrt(eighth);
            let thirty_second = fxsqrt(sixteenth);
            let sixty_fourth = fxsqrt(thirty_second);
            fxmul(fxmul(fxmul(quarter, eighth), sixteenth), sixty_fourth)
        }
    }

    fn gamma_channel(c: i64) -> (r: i64)
        ensures r == Renderer::gamma_channel_s(c),
    {
        if c < 0 {
            return 0;
        }
        let quarter = fx_sqrt(fx_sqrt(c));
        let eighth = fx_sqrt(quarter);
        let sixteenth = fx_sqrt(eighth);
        let thirty_second = fx_sqrt(sixteenth);
        let sixty_fourth = fx_sqrt(thirty_second);
        fx_mul(fx_mul(fx_mul(quarter, eighth), sixteenth), sixty_fourth)
    }

    pub open spec fn gamma_correct_s(color: Vector) -> Vector {
        Vector {
            x: Renderer::gamma_channel_s(color.x),
            y: Renderer::gamma_channel_s(color.y),
            z: Renderer::gamma_channel_s(color.z),
            w: color.w,
        }
    }

    /// Per-channel gamma correction; alpha is untouched.
    pub fn gamma_correct(color: Vector) -> (r: Vector)
        ensures r == Renderer::gamma_correct_s(color),
    {
        Vector::new(
            Renderer::gamma_channel(color.x()),
            Renderer::gamma_channel(color.y()),
            Renderer::gamma_channel(color.z()),
            color.w(),
        )
    }

    /// The decaying exponential of the tone map, `e^(-x)` for `x` the
    /// exposed radiance, as the reciprocal of a third-order series. The
    /// true exponential never reaches zero, so the approximation keeps
    /// at least one least step.
    pub open spec fn exp_neg_s(x: i64) -> i64 {
        let x2 = fxmul(x, x);
        let x3 = fxmul(x2, x);
        let den = fxadd(fxadd(fxadd(FX_ONE, x), idiv(x2, 2)), idiv(x3, 6));
        let e = fxdiv(FX_ONE, den);
        if e < 1 { 1 } else { e }
    }

    fn exp_neg(x: i64) -> (r: i64)
        ensures r == Renderer::exp_neg_s(x),
    {
        let x2 = fx_mul(x, x);
        let x3 = fx_mul(x2, x);
        let den = fx_add(fx_add(fx_add(FX_ONE, x), fx_idiv(x2, 2)), fx_idiv(x3, 6));
        let e = fx_div(FX_ONE, den);
        if e < 1 { 1 } else { e }
    }

    /// One tone-mapped channel: `1 - e^(-c * exposure)`. The series
    /// reciprocal is an exponential only for nonnegative radiance, which
    /// is all the pipeline feeds it (the gamma floor precedes it); on
    /// negative inputs the formula still applies but tracks no
    /// exponential.
    pub open spec fn tonemap_channel_s(c: i64) -> i64 {
        fxsub(FX_ONE, Renderer::exp_neg_s(fxmul(c, FX_EXPOSURE)))
    }

    pub open spec fn tonemap_s(color: Vector) -> Vector {
        Vector {
            x: Renderer::tonemap_channel_s(color.x),
            y: Renderer::tonemap_channel_s(color.y),
            z: Renderer::tonemap_channel_s(color.z),
            w: color.w,
        }
    }

    /// Exposure tone mapping per channel; alpha is untouched.
    pub fn tonemap(color: Vector) -> (r: Vector)
        ensures r == Renderer::tonemap_s(color),
    {
        let mapped = Vector::new(
            fx_sub(FX_ONE, Renderer::exp_neg(fx_mul(color.x(), FX_EXPOSURE))),
            fx_sub(FX_ONE, Renderer::exp_neg(fx_mul(color.y(), FX_EXPOSURE))),
            fx_sub(FX_ONE, Renderer::exp_neg(fx_mul(color.z(), FX_EXPOSURE))),
            color.w(),
        );
        mapped
    }

    /// One exported byte: the channel scaled by 255 and truncated, with
    /// the saturation the reference language's float-to-byte cast gives.
    pub open spec fn byte_of(c: i64) -> u8 {
        let p = fxmul(c, 16711680);
        let v = tdiv(p as int, FX_ONE as int);
        if v < 0 { 0 } else if v > 255 { 255 } else { v as u8 }
    }

    fn channel_byte(c: i64) -> (r: u8)
        ensures r == Renderer::byte_of(c),
    {
        let p = fx_mul(c, 16711680);
        let v = fx_idiv(p, FX_ONE);
        if v < 0 { 0 } else if v > 255 { 255 } else { v as u8 }
    }

    /// Pixel `i` of the framebuffer is exported at bytes `4i..4i+4`.
    pub open spec fn pixel_exported(bm: Seq<u8>, fb: Seq<Vector>, i: int) -> bool {
        &&& bm[4 * i] == Renderer::byte_of(fb[i].x)
        &&& bm[4 * i + 1] == Renderer::byte_of(fb[i].y)
        &&& bm[4 * i + 2] == Renderer::byte_of(fb[i].z)
        &&& bm[4 * i + 3] == Renderer::byte_of(fb[i].w)
    }

    /// The framebuffer as a linear RGBA byte array, row-major, four
    /// bytes per pixel.
    pub fn bitmap(&self) -> (r: Vec<u8>)
        ensures
            r@.len() == 4 * self.framebuffer@.len(),
            forall|i: int| 0 <= i < self.framebuffer@.len()
                ==> #[trigger] Renderer::pixel_exported(r@, self.framebuffer@, i),
    {
        let n = self.framebuffer.len();
        let mut bitmap: Vec<u8> = Vec::new();
        let mut i: usize = 0;
        while i < n
            invariant
                n == self.framebuffer@.len(),
                i <= n,
                bitmap@.len() == 4 * i,
                forall|k: int| 0 <= k < i
                    ==> #[trigger] Renderer::pixel_exported(bitmap@, self.framebuffer@, k),
            decreases n - i,
        {
            let ghost prev = bitmap@;
            let pixel = self.framebuffer[i];
            bitmap.push(Renderer::channel_byte(pixel.x()));
            bitmap.push(Renderer::channel_byte(pixel.y()));
            bitmap.push(Renderer::channel_byte(pixel.z()));
            bitmap.push(Renderer::channel_byte(pixel.w()));
            proof {
                assert forall|k: int| 0 <= k < i + 1
                    implies Renderer::pixel_exported(bitmap@, self.framebuffer@, k) by {
                    if k < i {
                        assert(Renderer::pixel_exported(prev, self.framebuffer@, k));
                        assert(bitmap@[4 * k] == prev[4 * k]);
                        assert(bitmap@[4 * k + 1] == prev[4 * k + 1]);
                        assert(bitmap@[4 * k + 2] == prev[4 * k + 2]);
                        assert(bitmap@[4 * k + 3] == prev[4 * k + 3]);
                    }
                }
            }
            i += 1;
        }
        bitmap
    }

    /// A buffer of zero color vectors, one per pixel.
    fn zero_buffer(n: usize) -> (v: Vec<Vector>)
        ensures
            v@.len() == n,
            forall|k: int| 0 <= k < n ==> v@[k] == Vector::zero_s(),
    {
        let mut v: Vec<Vector> = Vec::new();
        let mut i: usize = 0;
        while i < n
            invariant
                i <= n,
                v@.len() == i,
                forall|k: int| 0 <= k < i ==> v@[k] == Vector::zero_s(),
            decreases n - i,
        {
            v.push(Vector::zero());
            i += 1;
        }
        v
    }

    /// The fixed demonstration scene: a red metallic sphere, a green
    /// glossy sphere, a huge matte floor sphere, and a sun direction the
    /// shading does not yet read.
    pub open spec fn default_objects() -> Seq<Sphere> {
        seq![
            Sphere {
                position: Vector { x: 0, y: 0, z: 327680, w: FX_ONE },
                radius: FX_ONE,
                material: Material {
                    diffuse: Vector { x: FX_ONE, y: 0, z: 0, w: FX_ONE },
                    specular: Vector { x: FX_ONE, y: 19661, z: 19661, w: FX_ONE },
                    emissive: Vector::zero_s(),
                    metallic: 58982,
                    roughness: 32768,
                },
            },
            Sphere {
                position: Vector { x: 196608, y: 0, z: 327680, w: FX_ONE },
                radius: 98304,
                material: Material {
                    diffuse: Vector { x: 0, y: FX_ONE, z: 0, w: FX_ONE },
                    specular: Vector { x: 19661, y: FX_ONE, z: 19661, w: FX_ONE },
                    emissive: Vector::zero_s(),
                    metallic: 45875,
                    roughness: 0,
                },
            },
            Sphere {
                position: Vector { x: 0, y: 65732608, z: 0, w: FX_ONE },
                radius: 65536000,
                material: Material {
                    diffuse: Vector { x: 55706, y: 55706, z: FX_ONE, w: FX_ONE },
                    specular: Vector { x: 26214, y: 26214, z: FX_ONE, w: FX_ONE },
                    emissive: Vector::zero_s(),
                    metallic: 0,
                    roughness: 0,
                },
            },
        ]
    }

    pub open spec fn default_sun() -> Vector {
        Vector { x: 655360, y: (-655360) as i64, z: (-655360) as i64, w: FX_ONE }
    }

    #[verifier::rlimit(100)]
    pub fn new(width: usize, height: usize) -> (r: Renderer)
        requires
            1 <= width <= 0x4000,
            1 <= height <= 0x4000,
        ensures
            r.wf(),
            r.frametime == 0,
            r.frame_count == 1,
            r.accumulate == true,
            r.accumulated_data@.len() == width * height,
            forall|k: int| 0 <= k < r.accumulated_data@.len()
                ==> r.accumulated_data@[k] == Vector::zero_s(),
            r.framebuffer@.len() == width * height,
            forall|k: int| 0 <= k < r.framebuffer@.len()
                ==> r.framebuffer@[k] == Vector::zero_s(),
            r.scene.objects@ == Renderer::default_objects(),
            r.scene.sun == Renderer::default_sun(),
            r.closest == (Intersection {
                color: Vector::zero_s(),
                position: Vector::zero_s(),
                normal: Vector::zero_s(),
                distance: 0,
                exit: 0,
                object: None,
            }),
            r.camera.width == width && r.camera.height == height,
            r.camera.fov == 5898240 && r.camera.near == 6554 && r.camera.far == 65536000,
            r.camera.moved == false,
            r.camera.position == Vector::zero_s(),
            r.camera.direction == (Vector { x: 0, y: 0, z: FX_ONE, w: FX_ONE }),
            r.camera.rays@ == Camera::rays_seq(r.camera.projection_inverse,
                r.camera.view_inverse, r.camera.position, width as int, height as int),
    {
        proof {
            assert(width * height <= 0x1000_0000) by (nonlinear_arith)
                requires width <= 0x4000 && height <= 0x4000;
        }
        let renderer = Renderer {
            frametime: 0,
            frame_count: 1, // avoid division by zero
            accumulate: true,
            accumulated_data: Renderer::zero_buffer(width * height),
            framebuffer: Renderer::zero_buffer(width * height),
            camera: Camera::new(5898240, 6554, 65536000, width, height),
            closest: Intersection {
                color: Vector::zero(),
                position: Vector::zero(),
                normal: Vector::zero(),
                distance: 0,
                exit: 0,
                object: None,
            },
            scene: Scene {
                objects: vec![
                    Sphere {
                        position: Vector::new(0, 0, 327680, FX_ONE),
                        radius: FX_ONE,
                        material: Material {
                            diffuse: Vector::new(FX_ONE, 0, 0, FX_ONE),
                            specular: Vector::new(FX_ONE, 19661, 19661, FX_ONE),
                            emissive: Vector::zero(),
                            metallic: 58982,
                            roughness: 32768,
                        },
                    },
                    Sphere {
                        position: Vector::new(196608, 0, 327680, FX_ONE),
                        radius: 98304,
                        material: Material {
                            diffuse: Vector::new(0, FX_ONE, 0, FX_ONE),
                            specular: Vector::new(19661, FX_ONE, 19661, FX_ONE),
                            emissive: Vector::zero(),
                            metallic: 45875,
                            roughness: 0,
                        },
                    },
                    Sphere {
                        position: Vector::new(0, 65732608, 0, FX_ONE),
                        radius: 65536000,
                        material: Material {
                            diffuse: Vector::new(55706, 55706, FX_ONE, FX_ONE),
                            specular: Vector::new(26214, 26214, FX_ONE, FX_ONE),
                            emissive: Vector::zero(),
                            metallic: 0,
                            roughness: 0,
                        },
                    },
                ],
                sun: Vector::new(655360, -655360, -655360, FX_ONE),
            },
        };

        proof {
            assert(renderer.scene.objects@ =~= Renderer::default_objects());
        }

        renderer
    }

    pub fn framebuffer(&self) -> (r: &Vec<Vector>)
        ensures r == &self.framebuffer,
    {
        &self.framebuffer
    }

    pub fn frametime(&self) -> (r: u64)
        ensures r == self.frametime,
    {
        self.frametime
    }

    pub fn position(&self) -> (r: Vector)
        ensures r == self.camera.position,
    {
        self.camera.position()
    }

    pub fn rotation(&self) -> (r: Vector)
        ensures r == self.camera.direction,
    {
        self.camera.direction()
    }

    pub fn size(&self) -> (r: [usize; 2])
        ensures
            r@.len() == 2,
            r@[0] == self.camera.width && r@[1] == self.camera.height,
    {
        [self.camera.width(), self.camera.height()]
    }

    /// The sky gradient a missed ray samples: bottom and top colors
    /// blended by the ray's vertical direction remapped into [0, 1].
    #[verifier::opaque]
    pub open spec fn sky_color_s(ray: Ray) -> Vector {
        let top_sky_color = Vector { x: 34668, y: 52953, z: 60424, w: FX_ONE };
        let bottom_sky_color = Vector { x: 6947, y: 18022, z: 46596, w: FX_ONE };
        let clamped = fxclamp(ray.direction.y, (-FX_ONE) as i64, FX_ONE);
        let adjusted = fxmul(fxadd(clamped, FX_ONE), FX_HALF);
        Vector::lerp_s(bottom_sky_color, top_sky_color, adjusted)
    }

    fn sky_color(ray: &Ray) -> (r: Vector)
        ensures r == Renderer::sky_color_s(*ray),
    {
        proof { reveal(Renderer::sky_color_s); }
        let top_sky_color = Vector::new(34668, 52953, 60424, FX_ONE);
        let bottom_sky_color = Vector::new(6947, 18022, 46596, FX_ONE);
        let clamped = fx_clamp(ray.direction.y(), -FX_ONE, FX_ONE);
        let adjusted = fx_mul(fx_add(clamped, FX_ONE), FX_HALF);
        Vector::lerp(&bottom_sky_color, &top_sky_color, adjusted)
    }

    /// The per-bounce record saved before descending: the intersection,
    /// the hit material's fields, and the incidence terms of the
    /// jittered ray.
    #[verifier::opaque]
    pub open spec fn bounce_of(objects: Seq<Sphere>, inter: Intersection, ray1: Ray) -> Bounce {
        let material = match inter.object {
            Some(i) => objects[i as int].material,
            None => Material {
                diffuse: Vector::zero_s(),
                specular: Vector::zero_s(),
                emissive: Vector::zero_s(),
                metallic: 0,
                roughness: 0,
            },
        };
        Bounce {
            inter,
            base_color: material.diffuse,
            metallic: material.metallic,
            roughness: material.roughness,
            cos_theta: Vector::dot_s(inter.normal,
                Vector::scale_s(ray1.direction, (-FX_ONE) as i64)),
            fresnel: Renderer::fresnel_s(objects, inter, ray1),
        }
    }

    /// One level of the shading recursion closing over its deeper
    /// result: blend the deeper color with the base by metallic, add the
    /// Lambertian and Fresnel-weighted terms, multiply the running
    /// contribution, and leave the roughness-jittered reflection as the
    /// outgoing ray.
    #[verifier::opaque]
    pub open spec fn ascend_one(b: Bounce, samples: Seq<i64>,
                                inner: (Vector, Vector, Ray, int)) -> (Vector, Vector, Ray, int) {
        let specular_color = inner.0;
        let contribution2 = inner.1;
        let ray2 = inner.2;
        let pos2 = inner.3;
        let specular_blend = Vector::lerp_s(specular_color, b.base_color, b.metallic);
        let diffuse_contribution = Vector::scale_s(b.base_color,
            fxmul(fxsub(FX_ONE, b.metallic), fxmax0(b.cos_theta)));
        let specular_contribution = Vector::scale_s(specular_blend, b.fresnel);
        let total_contribution = Vector::add_s(diffuse_contribution, specular_contribution);
        let contribution3 = Vector::mul_s(contribution2, total_contribution);
        let reflected = Renderer::reflect_s(b.inter, ray2);
        let dir3 = Renderer::jitter_s(reflected.direction,
            fxmul(FX_HALF, b.roughness), samples, pos2);
        let ray3 = Ray { origin: ray2.origin, direction: dir3 };
        (contribution3, contribution3, ray3, pos2 + 3)
    }

    /// A saved bounce stack closed over an innermost result, topmost
    /// level first.
    pub open spec fn ascend(stack: Seq<Bounce>, samples: Seq<i64>,
                            inner: (Vector, Vector, Ray, int)) -> (Vector, Vector, Ray, int)
        decreases stack.len(),
    {
        if stack.len() == 0 {
            inner
        } else {
            Renderer::ascend_one(stack[0], samples,
                Renderer::ascend(stack.subrange(1, stack.len() as int), samples, inner))
        }
    }

    /// The bounded shading walk. At zero remaining bounces the color is
    /// the neutral full-intensity sentinel; a scene miss multiplies the
    /// sky into the running contribution and stops; a hit jitters the
    /// incoming direction, recurses one bounce deeper for its specular
    /// sample, and closes the level over it. The last two components
    /// carry the mutated contribution and ray, and the cursor into the
    /// jitter stream.
    #[verifier::opaque]
    pub open spec fn shade_s(objects: Seq<Sphere>, bounces: u32, contribution: Vector,
                             ray: Ray, samples: Seq<i64>, pos: int) -> (Vector, Vector, Ray, int)
        decreases bounces,
    {
        if bounces == 0 {
            (Vector { x: FX_ONE, y: FX_ONE, z: FX_ONE, w: FX_ONE }, contribution, ray, pos)
        } else {
            let inter = Renderer::trace_s(objects, ray);
            match inter.object {
                None => {
                    let c2 = Vector::mul_s(contribution, Renderer::sky_color_s(ray));
                    (c2, c2, ray, pos)
                },
                Some(i) => {
                    let jdir = Vector::normalize_s(
                        Renderer::jitter_s(ray.direction, FX_NOISE, samples, pos));
                    let ray1 = Ray { origin: ray.origin, direction: jdir };
                    let b = Renderer::bounce_of(objects, inter, ray1);
                    Renderer::ascend_one(b, samples, Renderer::shade_s(objects,
                        (bounces - 1) as u32, contribution, ray1, samples, pos + 3))
                },
            }
        }
    }

    /// The shading walk, evaluated without recursion as a descent that
    /// saves one `Bounce` per hit and an ascent that closes the saved
    /// levels over the terminal color, exactly as `shade_s` states.
    pub fn shade_sampled(&mut self, x: usize, y: usize, bounces: u32,
                         contribution: &mut Vector, ray: &mut Ray,
                         samples: &Vec<i64>) -> (r: Pixel)
        requires samples@.len() >= 6 * bounces,
        ensures
            *final(self) == *old(self),
            ({
                let t = Renderer::shade_s(old(self).scene.objects@, bounces,
                    *old(contribution), *old(ray), samples@, 0);
                &&& r.color == t.0
                &&& *final(contribution) == t.1
                &&& *final(ray) == t.2
            }),
            r.depth == FX_INF,
    {
        let ghost objects = self.scene.objects@;
        let ghost c0 = *contribution;
        let slen = samples.len();
        let ghost full = Renderer::shade_s(objects, bounces, *contribution, *ray, samples@, 0);

        let mut stack: Vec<Bounce> = Vec::new();
        let mut b = bounces;
        let mut pos: usize = 0;
        let mut missed = false;

        while b > 0 && !missed
            invariant
                *self == *old(self),
                objects == self.scene.objects@,
                samples@.len() >= 6 * bounces,
                samples@.len() <= usize::MAX,
                b <= bounces,
                pos == 3 * stack@.len(),
                stack@.len() + b == bounces,
                !missed ==> *contribution == c0,
                !missed ==> full == Renderer::ascend(stack@, samples@,
                    Renderer::shade_s(objects, b, c0, *ray, samples@, pos as int)),
                missed ==> full == Renderer::ascend(stack@, samples@,
                    (*contribution, *contribution, *ray, pos as int)),
            decreases b, (if missed { 0int } else { 1int }),
        {
            let ghost ray_in = *ray;
            let ghost pos_in = pos as int;
            let ghost b_in = b;
            let ghost stack_in = stack@;

            let intersection = self.trace(ray);

            match intersection.object {
                None => {
                    // no intersection, so cast to sky
                    let sky = Renderer::sky_color(ray);
                    *contribution = Vector::mul(contribution, &sky);
                    missed = true;
                    proof {
                        reveal_with_fuel(Renderer::shade_s, 2);
                        assert(Renderer::shade_s(objects, b_in, c0, ray_in, samples@, pos_in)
                            == (*contribution, *contribution, *ray, pos_in));
                    }
                },
                Some(idx) => {
                    let jittered = Renderer::jitter(&ray.direction, FX_NOISE, samples, pos);
                    let direction_jittered = Vector::normalize(&jittered);
                    *ray = Ray::new(ray.origin, direction_jittered);

                    let object = &self.scene.objects[idx];
                    let material = &object.material;
                    let metallic = material.metallic;

                    let inverted = Vector::scale(&direction_jittered, -FX_ONE);
                    let cos_theta = Vector::dot(&intersection.normal, &inverted);

                    let fresnel = self.fresnel(&intersection, ray);

                    let bounce = Bounce {
                        inter: intersection,
                        base_color: material.diffuse,
                        metallic,
                        roughness: material.roughness,
                        cos_theta,
                        fresnel,
                    };

                    proof {
                        reveal_with_fuel(Renderer::shade_s, 2);
                        reveal(Renderer::bounce_of);
                        assert(bounce == Renderer::bounce_of(objects, intersection, *ray));
                        assert(Renderer::shade_s(objects, b_in, c0, ray_in, samples@, pos_in)
                            == Renderer::ascend_one(bounce, samples@,
                                Renderer::shade_s(objects, (b_in - 1) as u32, c0, *ray,
                                    samples@, pos_in + 3)));
                        lemma_ascend_push(stack_in, samples@, bounce,
                            Renderer::shade_s(objects, (b_in - 1) as u32, c0, *ray,
                                samples@, pos_in + 3));
                    }

                    stack.push(bounce);
                    pos = pos + 3;
                    b = b - 1;
                },
            }
        }

        let mut pixel_color = if !missed {
            Vector::broadcast(FX_ONE)
        } else {
            *contribution
        };

        proof {
            reveal_with_fuel(Renderer::shade_s, 2);
            assert(full == Renderer::ascend(stack@, samples@,
                (pixel_color, *contribution, *ray, pos as int)));
        }

        while stack.len() > 0
            invariant
                *self == *old(self),
                samples@.len() >= 6 * bounces,
                samples@.len() <= usize::MAX,
                pos + 3 * stack@.len() <= 6 * bounces,
                full == Renderer::ascend(stack@, samples@,
                    (pixel_color, *contribution, *ray, pos as int)),
            decreases stack@.len(),
        {
            let ghost stack_in = stack@;
            let ghost inner_in = (pixel_color, *contribution, *ray, pos as int);

            let bounce = stack.pop().unwrap();

            let specular_blend = Vector::lerp(&pixel_color, &bounce.base_color, bounce.metallic);

            let diffuse_contribution = Vector::scale(&bounce.base_color,
                fx_mul(fx_sub(FX_ONE, bounce.metallic), fx_max0(bounce.cos_theta)));
            let specular_contribution = Vector::scale(&specular_blend, bounce.fresnel);

            let total_contribution = Vector::add(&diffuse_contribution, &specular_contribution);

            *contribution = Vector::mul(contribution, &total_contribution);

            let reflected = Renderer::reflect(&bounce.inter, ray);
            let direction = Renderer::jitter(&reflected.direction,
                fx_mul(FX_HALF, bounce.roughness), samples, pos);
            *ray = Ray::new(ray.origin, direction);

            pixel_color = *contribution;
            pos = pos + 3;

            proof {
                reveal(Renderer::ascend_one);
                assert(stack_in =~= stack@.push(bounce));
                assert((pixel_color, *contribution, *ray, pos as int)
                    == Renderer::ascend_one(bounce, samples@, inner_in));
                lemma_ascend_push(stack@, samples@, bounce, inner_in);
            }
        }

        Pixel { color: pixel_color, depth: FX_INF }
    }

    /// What a randomized shading call reports: some jitter stream of
    /// fractions below one drove the walk, and the pixel, contribution
    /// and ray are exactly its `shade_s` outcome.
    pub open spec fn shade_outcome(objects: Seq<Sphere>, bounces: u32, c0: Vector, r0: Ray,
                                   color: Vector, c1: Vector, r1: Ray,
                                   samples: Seq<i64>) -> bool {
        &&& samples.len() == 6 * bounces
        &&& (forall|k: int| 0 <= k < samples.len() ==> 0 <= #[trigger] samples[k] < FX_ONE)
        &&& ({
            let t = Renderer::shade_s(objects, bounces, c0, r0, samples, 0);
            color == t.0 && c1 == t.1 && r1 == t.2
        })
    }

    /// One shading walk with fresh jitter. Which fractions the process's
    /// random generator hands out is unknowable, so the contract says
    /// only that the result is the exact `shade_s` outcome of some
    /// stream of in-range fractions.
    pub fn shade(&mut self, x: usize, y: usize, bounces: u32,
                 contribution: &mut Vector, ray: &mut Ray) -> (r: Pixel)
        requires 6 * bounces <= usize::MAX,
        ensures
            *final(self) == *old(self),
            r.depth == FX_INF,
            exists|samples: Seq<i64>| #[trigger] Renderer::shade_outcome(
                old(self).scene.objects@, bounces, *old(contribution), *old(ray),
                r.color, *final(contribution), *final(ray), samples),
    {
        let n: usize = 6 * (bounces as usize);
        let mut samples: Vec<i64> = Vec::new();
        while samples.len() < n
            invariant
                samples@.len() <= n,
                forall|k: int| 0 <= k < samples@.len() ==> 0 <= #[trigger] samples@[k] < FX_ONE,
            decreases n - samples@.len(),
        {
            samples.push(random_fraction());
        }
        let r = self.shade_sampled(x, y, bounces, contribution, ray, &samples);
        proof {
            assert(Renderer::shade_outcome(old(self).scene.objects@, bounces,
                *old(contribution), *old(ray), r.color, *contribution, *ray, samples@));
        }
        r
    }

    /// The reciprocal of the frame counter, the running-average weight.
    pub open spec fn count_recip(count: u32) -> i64 {
        fxdiv(FX_ONE, (count * FX_ONE) as i64)
    }

    /// One pixel's displayed sample is a `shade_s` outcome of some
    /// in-range jitter stream, gamma corrected and tone mapped.
    pub open spec fn pixel_outcome(objects: Seq<Sphere>, ray: Ray, bounces: u32,
                                   v: Vector) -> bool {
        exists|s: Seq<i64>, color: Vector, c1: Vector, r1: Ray| {
            &&& #[trigger] Renderer::shade_outcome(objects, bounces,
                Vector { x: FX_ONE, y: FX_ONE, z: FX_ONE, w: FX_ONE }, ray,
                color, c1, r1, s)
            &&& v == Renderer::tonemap_s(Renderer::gamma_correct_s(color))
        }
    }

    /// The deterministic tail of a frame, relating the state before the
    /// pixel pass to the state after it. A camera-moved flag resets the
    /// accumulation to zero and the counter to one before any pixel is
    /// consumed, and clears itself. With accumulation on, every pixel's
    /// sample is added into the running sum and the framebuffer shows
    /// the sum weighted by the pre-increment counter's reciprocal; with
    /// it off, the framebuffer takes the sample directly. The counter
    /// then advances (saturating at its type's bound).
    pub open spec fn accumulation_of(pre: Renderer, post: Renderer,
                                     samples: Seq<Vector>) -> bool {
        let count: u32 = if pre.camera.moved { 1u32 } else { pre.frame_count };
        let base: Seq<Vector> = if pre.camera.moved {
            Seq::new(samples.len(), |i: int| Vector::zero_s())
        } else {
            pre.accumulated_data@
        };
        &&& post.camera.moved == false
        &&& post.camera.rays == pre.camera.rays
        &&& post.camera.projection == pre.camera.projection
        &&& post.camera.projection_inverse == pre.camera.projection_inverse
        &&& post.camera.view == pre.camera.view
        &&& post.camera.view_inverse == pre.camera.view_inverse
        &&& post.camera.fov == pre.camera.fov
        &&& post.camera.near == pre.camera.near
        &&& post.camera.far == pre.camera.far
        &&& post.camera.width == pre.camera.width
        &&& post.camera.height == pre.camera.height
        &&& post.camera.pitch == pre.camera.pitch
        &&& post.camera.yaw == pre.camera.yaw
        &&& post.camera.depth == pre.camera.depth
        &&& post.camera.show_depth == pre.camera.show_depth
        &&& post.camera.position == pre.camera.position
        &&& post.camera.direction == pre.camera.direction
        &&& post.camera.right == pre.camera.right
        &&& post.frametime == pre.frametime
        &&& post.accumulate == pre.accumulate
        &&& post.scene.objects@ == pre.scene.objects@
        &&& post.scene.sun == pre.scene.sun
        &&& post.closest == pre.closest
        &&& post.frame_count == (if count < u32::MAX { (count + 1) as u32 } else { count })
        &&& post.accumulated_data@.len() == samples.len()
        &&& post.framebuffer@.len() == samples.len()
        &&& (pre.accumulate ==> forall|i: int| 0 <= i < samples.len() ==> {
            &&& #[trigger] post.accumulated_data@[i]
                == Vector::add_s(base[i], samples[i])
            &&& post.framebuffer@[i] == Vector::scale_s(
                Vector::add_s(base[i], samples[i]), Renderer::count_recip(count))
        })
        &&& (!pre.accumulate ==> {
            &&& post.accumulated_data@ == base
            &&& forall|i: int| 0 <= i < samples.len()
                ==> #[trigger] post.framebuffer@[i] == samples[i]
        })
    }

    /// Fold one frame of tone-mapped samples into the accumulation
    /// state, exactly as `accumulation_of` states.
    pub fn apply_frame(&mut self, samples: &Vec<Vector>)
        requires
            old(self).wf(),
            samples@.len() == old(self).framebuffer@.len(),
        ensures
            final(self).wf(),
            Renderer::accumulation_of(*old(self), *final(self), samples@),
    {
        if self.camera.moved {
            self.frame_count = 1;

            let n = self.framebuffer.len();
            self.accumulated_data = Renderer::zero_buffer(n);

            self.camera.moved = false;
        }

        let ghost base = self.accumulated_data@;
        let ghost count = self.frame_count;
        proof {
            if old(self).camera.moved {
                assert(base =~= Seq::new(samples@.len() as nat, |i: int| Vector::zero_s()));
            }
        }

        let recip = fx_div(FX_ONE, (self.frame_count as i64) * FX_ONE);

        let n = self.framebuffer.len();
        let mut index: usize = 0;
        while index < n
            invariant
                n == samples@.len(),
                self.framebuffer@.len() == n,
                self.accumulated_data@.len() == n,
                base.len() == n,
                index <= n,
                self.frame_count == count,
                recip == Renderer::count_recip(count),
                self.camera.moved == false,
                self.camera.rays == old(self).camera.rays,
                self.camera.projection == old(self).camera.projection,
                self.camera.projection_inverse == old(self).camera.projection_inverse,
                self.camera.view == old(self).camera.view,
                self.camera.view_inverse == old(self).camera.view_inverse,
                self.camera.fov == old(self).camera.fov,
                self.camera.near == old(self).camera.near,
                self.camera.far == old(self).camera.far,
                self.camera.width == old(self).camera.width,
                self.camera.height == old(self).camera.height,
                self.camera.pitch == old(self).camera.pitch,
                self.camera.yaw == old(self).camera.yaw,
                self.camera.depth == old(self).camera.depth,
                self.camera.show_depth == old(self).camera.show_depth,
                self.camera.position == old(self).camera.position,
                self.camera.direction == old(self).camera.direction,
                self.camera.right == old(self).camera.right,
                self.frametime == old(self).frametime,
                self.accumulate == old(self).accumulate,
                self.scene.objects@ == old(self).scene.objects@,
                self.scene.sun == old(self).scene.sun,
                self.closest == old(self).closest,
                forall|i: int| index <= i < n
                    ==> #[trigger] self.accumulated_data@[i] == base[i],
                self.accumulate ==> forall|i: int| 0 <= i < index ==> {
                    &&& #[trigger] self.accumulated_data@[i]
                        == Vector::add_s(base[i], samples@[i])
                    &&& self.framebuffer@[i] == Vector::scale_s(
                        Vector::add_s(base[i], samples@[i]), Renderer::count_recip(count))
                },
                !self.accumulate ==> self.accumulated_data@ == base,
                !self.accumulate ==> forall|i: int| 0 <= i < index
                    ==> #[trigger] self.framebuffer@[i] == samples@[i],
            decreases n - index,
        {
            if self.accumulate {
                let sum = Vector::add(&self.accumulated_data[index], &samples[index]);
                self.accumulated_data[index] = sum;
                self.framebuffer[index] = Vector::scale(&self.accumulated_data[index], recip);
            } else {
                // no need to write to the accumulation buffer
                self.framebuffer[index] = samples[index];
            }
            index += 1;
        }

        if self.frame_count < u32::MAX {
            self.frame_count = self.frame_count + 1;
        }

        proof {
            let pre = *old(self);
            let post = *self;
            let count2: u32 = if pre.camera.moved { 1u32 } else { pre.frame_count };
            let base2: Seq<Vector> = if pre.camera.moved {
                Seq::new(samples@.len(), |i: int| Vector::zero_s())
            } else {
                pre.accumulated_data@
            };
            assert(count2 == count);
            assert(base2 == base);
            assert(post.camera.moved == false);
            assert(post.camera.rays == pre.camera.rays);
            assert(post.frametime == pre.frametime);
            assert(post.accumulate == pre.accumulate);
            assert(post.scene.objects@ == pre.scene.objects@);
            assert(post.closest == pre.closest);
            assert(post.frame_count == (if count2 < u32::MAX { (count2 + 1) as u32 } else { count2 }));
            assert(post.accumulated_data@.len() == samples@.len());
            assert(post.framebuffer@.len() == samples@.len());
            assert(pre.accumulate ==> forall|i: int| 0 <= i < samples@.len() ==> {
                &&& #[trigger] post.accumulated_data@[i]
                    == Vector::add_s(base2[i], samples@[i])
                &&& post.framebuffer@[i] == Vector::scale_s(
                    Vector::add_s(base2[i], samples@[i]), Renderer::count_recip(count2))
            });
            assert(!pre.accumulate ==> post.accumulated_data@ == base2);
            assert(!pre.accumulate ==> forall|i: int| 0 <= i < samples@.len()
                ==> #[trigger] post.framebuffer@[i] == samples@[i]);
            assert(post.camera.projection == pre.camera.projection);
            assert(post.camera.projection_inverse == pre.camera.projection_inverse);
            assert(post.camera.view == pre.camera.view);
            assert(post.camera.view_inverse == pre.camera.view_inverse);
            assert(post.camera.fov == pre.camera.fov);
            assert(post.camera.near == pre.camera.near);
            assert(post.camera.far == pre.camera.far);
            assert(post.camera.width == pre.camera.width);
            assert(post.camera.height == pre.camera.height);
            assert(post.camera.pitch == pre.camera.pitch);
            assert(post.camera.yaw == pre.camera.yaw);
            assert(post.camera.depth == pre.camera.depth);
            assert(post.camera.show_depth == pre.camera.show_depth);
            assert(post.camera.position == pre.camera.position);
            assert(post.camera.direction == pre.camera.direction);
            assert(post.camera.right == pre.camera.right);
            assert(post.scene.sun == pre.scene.sun);
            assert(Renderer::accumulation_of(pre, post, samples@));
        }
    }

    /// One tone-mapped sample per pixel, each shaded along its
    /// precomputed camera ray with fresh jitter.
    pub fn sample_frame(&mut self, bounces: u32) -> (samples: Vec<Vector>)
        requires
            old(self).wf(),
            6 * bounces <= usize::MAX,
        ensures
            *final(self) == *old(self),
            samples@.len() == old(self).framebuffer@.len(),
            forall|k: int| 0 <= k < samples@.len()
                ==> #[trigger] Renderer::pixel_outcome(old(self).scene.objects@,
                    old(self).camera.rays@[k], bounces, samples@[k]),
    {
        let width = self.camera.width();
        let n = self.framebuffer.len();
        let mut samples: Vec<Vector> = Vec::new();
        let mut k: usize = 0;
        while k < n
            invariant
                *self == *old(self),
                self.wf(),
                width == self.camera.width,
                6 * bounces <= usize::MAX,
                n == self.framebuffer@.len(),
                n == self.camera.rays@.len(),
                k <= n,
                samples@.len() == k,
                forall|j: int| 0 <= j < k
                    ==> #[trigger] Renderer::pixel_outcome(self.scene.objects@,
                        self.camera.rays@[j], bounces, samples@[j]),
            decreases n - k,
        {
            let mut contribution = Vector::broadcast(FX_ONE);
            let mut ray = self.camera.rays[k];
            let ghost ray0 = ray;

            let pixel = self.shade(k % width, k / width, bounces, &mut contribution, &mut ray);

            let corrected = Renderer::gamma_correct(pixel.color);
            let renormalized = Renderer::tonemap(corrected);

            proof {
                let s = choose|s: Seq<i64>| Renderer::shade_outcome(self.scene.objects@,
                    bounces, Vector { x: FX_ONE, y: FX_ONE, z: FX_ONE, w: FX_ONE }, ray0,
                    pixel.color, contribution, ray, s);
                assert(Renderer::shade_outcome(self.scene.objects@, bounces,
                    Vector { x: FX_ONE, y: FX_ONE, z: FX_ONE, w: FX_ONE }, ray0,
                    pixel.color, contribution, ray, s));
                assert(Renderer::pixel_outcome(self.scene.objects@, ray0, bounces,
                    renormalized));
            }

            samples.push(renormalized);
            k += 1;
        }
        samples
    }

    /// The frame's samples are per-pixel `shade_s` outcomes of the
    /// pre-state's rays, folded into the pre-state's accumulation
    /// exactly as `accumulation_of` states (the recorded frame time
    /// excepted: the clock is outside the fold).
    pub open spec fn rendered_frame(pre: Renderer, post: Renderer, bounces: u32,
                                    samples: Seq<Vector>) -> bool {
        &&& samples.len() == pre.framebuffer@.len()
        &&& (forall|k: int| 0 <= k < samples.len()
            ==> #[trigger] Renderer::pixel_outcome(pre.scene.objects@,
                pre.camera.rays@[k], bounces, samples[k]))
        &&& Renderer::accumulation_of(
            Renderer { frametime: post.frametime, ..pre }, post, samples)
    }

    /// One frame: reset the accumulation if the camera moved, shade
    /// every pixel along its precomputed ray, gamma correct and tone
    /// map it, fold it into the running average, and record the frame's
    /// wall-clock cost. The samples themselves depend on the jitter
    /// draws, so the contract promises a set of per-pixel `shade_s`
    /// outcomes folded in exactly as `accumulation_of` states.
    pub fn render(&mut self, bounces: u32)
        requires
            old(self).wf(),
            6 * bounces <= usize::MAX,
        ensures
            final(self).wf(),
            final(self).camera.moved == false,
            exists|samples: Seq<Vector>| #[trigger] Renderer::rendered_frame(
                *old(self), *final(self), bounces, samples),
    {
        let now = instant_now();

        let samples = self.sample_frame(bounces);
        let ghost mid = *self;
        self.apply_frame(&samples);

        let elapsed = elapsed_micros(&now);
        self.frametime = elapsed;

        proof {
            assert(Renderer::rendered_frame(mid, *self, bounces, samples@));
        }
    }

    /// One frame's input step: the camera consumes the snapshot, scaled
    /// by the last frame's measured time as elapsed seconds.
    pub fn update(&mut self, input: &InputState)
        requires old(self).wf(),
        ensures
            Camera::updated(old(self).camera, final(self).camera,
                crate::fixed::fx_from_micros_s(old(self).frametime), *input),
            final(self).frametime == old(self).frametime,
            final(self).frame_count == old(self).frame_count,
            final(self).accumulate == old(self).accumulate,
            final(self).accumulated_data == old(self).accumulated_data,
            final(self).framebuffer == old(self).framebuffer,
            final(self).scene.objects@ == old(self).scene.objects@,
            final(self).scene.sun == old(self).scene.sun,
            final(self).closest == old(self).closest,
            final(self).wf(),
    {
        let delta = crate::fixed::fx_from_micros(self.frametime);
        let ghost pre = self.camera;
        self.camera.update(delta, input);
        proof {
            Camera::lemma_updated_intro(pre, self.camera, delta, *input);
        }
    }
}

/// Closing a stack extended at the bottom equals closing the stack over
/// the one-level closure of the extension.
proof fn lemma_ascend_push(stack: Seq<Bounce>, samples: Seq<i64>, b: Bounce,
                           inner: (Vector, Vector, Ray, int))
    ensures
        Renderer::ascend(stack.push(b), samples, inner)
            == Renderer::ascend(stack, samples, Renderer::ascend_one(b, samples, inner)),
    decreases stack.len(),
{
    reveal_with_fuel(Renderer::ascend, 3);
    if stack.len() == 0 {
        assert(stack.push(b)[0] == b);
        assert(stack.push(b).subrange(1, 1) =~= Seq::<Bounce>::empty());
    } else {
        assert(stack.push(b)[0] == stack[0]);
        assert(stack.push(b).subrange(1, stack.len() as int + 1)
            =~= stack.subrange(1, stack.len() as int).push(b));
        lemma_ascend_push(stack.subrange(1, stack.len() as int), samples, b, inner);
    }
}

/// Tone-mapped channel values of finite nonnegative radiance lie in
/// [0, 1): the exposure curve's exponential stays within (0, 1], so its
/// complement never reaches one.
pub proof fn lemma_tonemap_channel_range(c: i64)
    requires c >= 0,
    ensures 0 <= Renderer::tonemap_channel_s(c) < FX_ONE,
{
    let x = fxmul(c, FX_EXPOSURE);
    crate::fixed::lemma_fxmul_nonneg(c, FX_EXPOSURE);
    let x2 = fxmul(x, x);
    crate::vector::lemma_fxmul_self_nonneg(x);
    let x3 = fxmul(x2, x);
    crate::fixed::lemma_fxmul_nonneg(x2, x);
    assert(tdiv(x2 as int, 2) >= 0) by (nonlinear_arith)
        requires x2 >= 0;
    assert(tdiv(x3 as int, 6) >= 0) by (nonlinear_arith)
        requires x3 >= 0;
    let den = fxadd(fxadd(fxadd(FX_ONE, x), idiv(x2, 2)), idiv(x3, 6));
    assert(den >= FX_ONE);
    let e0 = fxdiv(FX_ONE, den);
    assert(0 <= tdiv(FX_ONE * FX_ONE, den as int) <= FX_ONE) by (nonlinear_arith)
        requires den >= FX_ONE;
    let e = Renderer::exp_neg_s(x);
    assert(1 <= e <= FX_ONE);
}

/// Any camera-moved frame resets the accumulation to exactly that
/// frame's samples: the new running sum and the displayed framebuffer
/// are the frame's own tone-mapped samples, with no trace of what was
/// accumulated before.
pub proof fn lemma_moved_frame_resets(pre: Renderer, post: Renderer, samples: Seq<Vector>)
    requires
        Renderer::accumulation_of(pre, post, samples),
        pre.camera.moved,
        pre.accumulate,
        forall|i: int| 0 <= i < samples.len() ==> (#[trigger] samples[i]).bounded(),
    ensures
        post.frame_count == 2,
        forall|i: int| 0 <= i < samples.len()
            ==> #[trigger] post.accumulated_data@[i] == samples[i],
        forall|i: int| 0 <= i < samples.len()
            ==> #[trigger] post.framebuffer@[i] == samples[i],
{
    assert(Renderer::count_recip(1u32) == FX_ONE) by {
        assert(tdiv(FX_ONE * FX_ONE, FX_ONE as int) == FX_ONE) by (nonlinear_arith);
    }
    assert forall|i: int| 0 <= i < samples.len()
        implies #[trigger] post.accumulated_data@[i] == samples[i] by {
        let s = samples[i];
        assert(post.accumulated_data@[i] == Vector::add_s(Vector::zero_s(), s));
        assert(Vector::add_s(Vector::zero_s(), s) == s);
    }
    assert forall|i: int| 0 <= i < samples.len()
        implies #[trigger] post.framebuffer@[i] == samples[i] by {
        let s = samples[i];
        assert(post.accumulated_data@[i] == Vector::add_s(Vector::zero_s(), s));
        assert(Vector::add_s(Vector::zero_s(), s) == s);
        crate::fixed::lemma_fxmul_one(s.x);
        crate::fixed::lemma_fxmul_one(s.y);
        crate::fixed::lemma_fxmul_one(s.z);
        crate::fixed::lemma_fxmul_one(s.w);
        assert(Vector::scale_s(s, FX_ONE) == s);
    }
}

/// After exactly one accumulating frame from a fresh state (counter at
/// one, sums zero, camera still), the accumulation buffer equals the
/// displayed framebuffer, and both are that frame's samples.
pub proof fn lemma_first_frame_accumulation(pre: Renderer, post: Renderer,
                                            samples: Seq<Vector>)
    requires
        Renderer::accumulation_of(pre, post, samples),
        pre.accumulate,
        !pre.camera.moved,
        pre.frame_count == 1,
        pre.accumulated_data@.len() == samples.len(),
        forall|i: int| 0 <= i < pre.accumulated_data@.len()
            ==> #[trigger] pre.accumulated_data@[i] == Vector::zero_s(),
        forall|i: int| 0 <= i < samples.len() ==> (#[trigger] samples[i]).bounded(),
    ensures
        forall|i: int| 0 <= i < samples.len()
            ==> #[trigger] post.accumulated_data@[i] == post.framebuffer@[i],
        forall|i: int| 0 <= i < samples.len()
            ==> #[trigger] post.accumulated_data@[i] == samples[i],
{
    assert(Renderer::count_recip(1u32) == FX_ONE) by {
        assert(tdiv(FX_ONE * FX_ONE, FX_ONE as int) == FX_ONE) by (nonlinear_arith);
    }
    assert forall|i: int| 0 <= i < samples.len()
        implies #[trigger] post.accumulated_data@[i] == post.framebuffer@[i]
            && post.accumulated_data@[i] == samples[i] by {
        let s = samples[i];
        assert(pre.accumulated_data@[i] == Vector::zero_s());
        assert(post.accumulated_data@[i] == Vector::add_s(Vector::zero_s(), s));
        assert(Vector::add_s(Vector::zero_s(), s) == s);
        crate::fixed::lemma_fxmul_one(s.x);
        crate::fixed::lemma_fxmul_one(s.y);
        crate::fixed::lemma_fxmul_one(s.z);
        crate::fixed::lemma_fxmul_one(s.w);
        assert(Vector::scale_s(s, FX_ONE) == s);
        assert(post.framebuffer@[i] == s);
    }
}

/// The per-pixel running sums of a sequence of sample frames, folded in
/// arrival order from zero.
pub open spec fn folded_sums(frames: Seq<Seq<Vector>>, n: nat) -> Seq<Vector>
    decreases frames.len(),
{
    if frames.len() == 0 {
        Seq::new(n, |i: int| Vector::zero_s())
    } else {
        let prev = folded_sums(frames.drop_last(), n);
        Seq::new(n, |i: int| Vector::add_s(prev[i], frames.last()[i]))
    }
}

/// After N motionless accumulating frames from a fresh state, the
/// displayed framebuffer is the running sum of all N frames' samples
/// weighted by the reciprocal of N: the running average, not merely the
/// running sum.
pub proof fn lemma_running_average(states: Seq<Renderer>, frames: Seq<Seq<Vector>>, n: nat)
    requires
        states.len() == frames.len() + 1,
        1 <= frames.len() < u32::MAX,
        states[0].frame_count == 1,
        !states[0].camera.moved,
        states[0].accumulated_data@.len() == n,
        forall|i: int| 0 <= i < n ==> #[trigger] states[0].accumulated_data@[i]
            == Vector::zero_s(),
        forall|j: int| 0 <= j < frames.len() ==> #[trigger] frames[j].len() == n,
        forall|j: int| 0 <= j < frames.len() ==> #[trigger] states[j].accumulate,
        forall|j: int| 0 <= j < frames.len()
            ==> #[trigger] Renderer::accumulation_of(states[j], states[j + 1], frames[j]),
    ensures
        states[frames.len() as int].frame_count == frames.len() + 1,
        states[frames.len() as int].accumulated_data@.len() == n,
        forall|i: int| 0 <= i < n
            ==> #[trigger] states[frames.len() as int].accumulated_data@[i]
                == folded_sums(frames, n)[i],
        forall|i: int| 0 <= i < n
            ==> #[trigger] states[frames.len() as int].framebuffer@[i]
                == Vector::scale_s(folded_sums(frames, n)[i],
                    Renderer::count_recip(frames.len() as u32)),
    decreases frames.len(),
{
    let m = frames.len() as int;
    assert(Renderer::accumulation_of(states[m - 1], states[(m - 1) + 1], frames[m - 1]));
    if frames.len() == 1 {
        assert(frames.drop_last() =~= Seq::<Seq<Vector>>::empty());
        assert forall|i: int| 0 <= i < n
            implies #[trigger] states[1].accumulated_data@[i] == folded_sums(frames, n)[i] by {
            assert(folded_sums(frames, n)[i]
                == Vector::add_s(folded_sums(frames.drop_last(), n)[i], frames.last()[i]));
            assert(folded_sums(frames.drop_last(), n)[i] == Vector::zero_s());
            assert(states[1].accumulated_data@[i]
                == Vector::add_s(states[0].accumulated_data@[i], frames[0][i]));
        }
        assert forall|i: int| 0 <= i < n
            implies #[trigger] states[1].framebuffer@[i]
                == Vector::scale_s(folded_sums(frames, n)[i],
                    Renderer::count_recip(1u32)) by {
            assert(folded_sums(frames, n)[i]
                == Vector::add_s(folded_sums(frames.drop_last(), n)[i], frames.last()[i]));
            assert(folded_sums(frames.drop_last(), n)[i] == Vector::zero_s());
            assert(states[1].accumulated_data@[i]
                == Vector::add_s(states[0].accumulated_data@[i], frames[0][i]));
            assert(states[1].framebuffer@[i] == Vector::scale_s(
                Vector::add_s(states[0].accumulated_data@[i], frames[0][i]),
                Renderer::count_recip(1u32)));
        }
    } else {
        let prefix_states = states.drop_last();
        let prefix_frames = frames.drop_last();
        assert(prefix_states.len() == prefix_frames.len() + 1);
        assert(prefix_states[0] == states[0]);
        assert forall|j: int| 0 <= j < prefix_frames.len()
            implies #[trigger] Renderer::accumulation_of(prefix_states[j],
                prefix_states[j + 1], prefix_frames[j]) by {
            assert(prefix_states[j] == states[j]);
            assert(prefix_states[j + 1] == states[j + 1]);
            assert(prefix_frames[j] == frames[j]);
            assert(Renderer::accumulation_of(states[j], states[j + 1], frames[j]));
        }
        assert forall|j: int| 0 <= j < prefix_frames.len()
            implies #[trigger] prefix_frames[j].len() == n && prefix_states[j].accumulate by {
            assert(frames[j].len() == n);
            assert(states[j].accumulate);
        }
        lemma_running_average(prefix_states, prefix_frames, n);
        // the previous step leaves the camera still, so this step's
        // counter is the number of frames folded so far plus one
        assert(!states[m - 1].camera.moved) by {
            assert(Renderer::accumulation_of(states[m - 2], states[(m - 2) + 1],
                frames[m - 2]));
        }
        assert(states[m - 1].frame_count == m);
        assert forall|i: int| 0 <= i < n
            implies #[trigger] states[m].accumulated_data@[i] == folded_sums(frames, n)[i] by {
            assert(prefix_states[prefix_frames.len() as int] == states[m - 1]);
            assert(states[m - 1].accumulated_data@[i] == folded_sums(prefix_frames, n)[i]);
            assert(folded_sums(frames, n)[i]
                == Vector::add_s(folded_sums(frames.drop_last(), n)[i], frames.last()[i]));
            assert(states[m].accumulated_data@[i]
                == Vector::add_s(states[m - 1].accumulated_data@[i], frames[m - 1][i]));
            assert(frames.last() == frames[m - 1]);
        }
        assert forall|i: int| 0 <= i < n
            implies #[trigger] states[m].framebuffer@[i]
                == Vector::scale_s(folded_sums(frames, n)[i],
                    Renderer::count_recip(frames.len() as u32)) by {
            assert(prefix_states[prefix_frames.len() as int] == states[m - 1]);
            assert(states[m - 1].accumulated_data@[i] == folded_sums(prefix_frames, n)[i]);
            assert(folded_sums(frames, n)[i]
                == Vector::add_s(folded_sums(frames.drop_last(), n)[i], frames.last()[i]));
            assert(states[m].accumulated_data@[i]
                == Vector::add_s(states[m - 1].accumulated_data@[i], frames[m - 1][i]));
            assert(frames.last() == frames[m - 1]);
            assert(states[m].framebuffer@[i] == Vector::scale_s(
                Vector::add_s(states[m - 1].accumulated_data@[i], frames[m - 1][i]),
                Renderer::count_recip(states[m - 1].frame_count)));
        }
    }
}

/// A sphere dead ahead is entered at exactly `d - r` and exited at
/// `d + r`: for a ray at the origin aimed along the unit z axis and a
/// sphere centered `d` whole units down that axis with whole radius
/// `r < d`, every step of the ray-sphere quadratic lands on the grid,
/// free of truncation. Together with the closest-hit contract of
/// `trace` this pins the front-face distance of such queries; a sphere
/// behind the origin instead has a nonpositive near root, is no
/// candidate, and leaves the miss sentinel.
#[verifier::rlimit(100)]
pub proof fn lemma_axial_sphere_distances(d: int, r: int, s: Sphere)
    requires
        1 <= r < d <= 20000,
        s.position.x == 0 && s.position.y == 0,
        s.position.z == d * FX_ONE,
        s.radius == r * FX_ONE,
    ensures
        ({
            let ray = Ray {
                origin: Vector::zero_s(),
                direction: Vector { x: 0, y: 0, z: FX_ONE, w: 0 },
            };
            &&& Renderer::sphere_disc(ray, s) > 0
            &&& Renderer::sphere_t1(ray, s) == (d - r) * FX_ONE
            &&& Renderer::sphere_t2(ray, s) == (d + r) * FX_ONE
            &&& Renderer::cand(seq![s], ray, 0)
        }),
{
    reveal(Renderer::sphere_disc);
    reveal(Renderer::sphere_t1);
    reveal(Renderer::sphere_t2);
    let ray = Ray {
        origin: Vector::zero_s(),
        direction: Vector { x: 0, y: 0, z: FX_ONE, w: 0 },
    };

    assert(1 <= r * r && r * r < d * d && d * d <= 400000000) by (nonlinear_arith)
        requires 1 <= r < d <= 20000;
    assert((-d) * (-d) == d * d && (-2 * d) * (-2 * d) == 4 * (d * d)
        && 4 * (d * d) <= 1600000000) by (nonlinear_arith)
        requires 1 <= d <= 20000;

    vstd::arithmetic::div_mod::lemma_div_multiples_vanish(0, FX_ONE as int);
    assert(fxmul(0i64, 0i64) == 0);

    let difference = Vector::sub_s(ray.origin, s.position);
    assert(difference.x == 0 && difference.y == 0);
    assert(difference.z == ((-d) * FX_ONE) as i64);

    crate::fixed::lemma_fxmul_units(1, 1);
    assert((1 * FX_ONE) as i64 == FX_ONE);
    let a = Vector::dot_s(ray.direction, ray.direction);
    assert(a == FX_ONE);

    crate::fixed::lemma_fxmul_units(1, -d);
    let dd = Vector::dot_s(ray.direction, difference);
    assert(dd == ((-d) * FX_ONE) as i64);

    crate::fixed::lemma_fxmul_units(2, -d);
    assert(FX_TWO == (2 * FX_ONE) as i64);
    let b = fxmul(FX_TWO, dd);
    assert(b == ((-2 * d) * FX_ONE) as i64);

    crate::fixed::lemma_fxmul_units(-d, -d);
    let dot2 = Vector::dot_s(difference, difference);
    assert(dot2 == ((d * d) * FX_ONE) as i64);

    crate::fixed::lemma_fxmul_units(r, r);
    let c = fxsub(dot2, fxmul(s.radius, s.radius));
    assert(c == ((d * d - r * r) * FX_ONE) as i64);

    crate::fixed::lemma_fxmul_units(-2 * d, -2 * d);
    assert(fxmul(b, b) == ((4 * d * d) * FX_ONE) as i64) by {
        assert((-2 * d) * (-2 * d) == 4 * d * d) by (nonlinear_arith);
    }
    crate::fixed::lemma_fxmul_units(4, 1);
    assert(FX_FOUR == (4 * FX_ONE) as i64);
    assert(fxmul(FX_FOUR, a) == (4 * FX_ONE) as i64);
    crate::fixed::lemma_fxmul_units(4, d * d - r * r);
    assert(4 * (d * d - r * r) == 4 * (d * d) - 4 * (r * r)) by (nonlinear_arith);
    let disc = Renderer::sphere_disc(ray, s);
    assert(disc == ((4 * (r * r)) * FX_ONE) as i64);
    assert(disc > 0);

    // the discriminant is a perfect square on the grid
    let n = disc * FX_ONE;
    let w = 2 * r * FX_ONE;
    assert(w * w == n && n < (w + 1) * (w + 1)) by (nonlinear_arith)
        requires n == ((4 * (r * r)) * FX_ONE) * FX_ONE && w == 2 * r * FX_ONE && r >= 1;
    assert(crate::fixed::is_sqrt(n, w));
    crate::fixed::lemma_sqrt_unique(n, w);
    assert(fxsqrt(disc) == (w) as i64);

    let neg_b = fxneg(b);
    assert(neg_b == ((2 * d) * FX_ONE) as i64);
    let num1 = fxsub(neg_b, fxsqrt(disc));
    assert(num1 == ((2 * (d - r)) * FX_ONE) as i64) by {
        assert(2 * d * FX_ONE - 2 * r * FX_ONE == 2 * (d - r) * FX_ONE) by (nonlinear_arith);
    }
    let num2 = fxadd(neg_b, fxsqrt(disc));
    assert(num2 == ((2 * (d + r)) * FX_ONE) as i64) by {
        assert(2 * d * FX_ONE + 2 * r * FX_ONE == 2 * (d + r) * FX_ONE) by (nonlinear_arith);
    }
    crate::fixed::lemma_fxmul_units(2, 1);
    assert(fxmul(FX_TWO, a) == FX_TWO);
    crate::fixed::lemma_fxdiv_half_units(d - r);
    crate::fixed::lemma_fxdiv_half_units(d + r);
    assert(Renderer::sphere_t1(ray, s) == (d - r) * FX_ONE);
    assert(Renderer::sphere_t2(ray, s) == (d + r) * FX_ONE);

    assert(seq![s][0] == s);
    assert((d - r) * FX_ONE > 0) by (nonlinear_arith)
        requires r < d;
    assert((d - r) * FX_ONE < FX_INF) by (nonlinear_arith)
        requires 1 <= r < d <= 20000;
}

} // verus!
