//! Scenario checks of the camera, the closest-hit query, the shading
//! walk and the accumulation pipeline.

use luma::fixed::{fx_mul, fx_sub, fx_max0, FX_ONE, FX_INF};
use luma::camera::{Camera, InputState};
use luma::ray::Ray;
use luma::renderer::{Renderer, Scene, Sphere};
use luma::shader::ShaderFactory;
use luma::vector::Vector;

fn forward_ray() -> Ray {
    Ray::new(Vector::zero(), Vector::new(0, 0, FX_ONE, 0))
}

#[test]
fn trace_returns_entry_distance_d_minus_r() {
    // sphere at distance five along the ray, radius one: entry at four
    let mut renderer = Renderer::new(4, 4);
    let ray = forward_ray();
    let hit = renderer.trace(&ray);
    assert_eq!(hit.object, Some(0));
    assert_eq!(hit.distance, 4 * FX_ONE);
    assert_eq!(hit.exit, 6 * FX_ONE);
    assert_eq!(hit.position.raw(), [0, 0, 4 * FX_ONE, 0]);
    assert_eq!(hit.normal.raw(), [0, 0, -FX_ONE, -FX_ONE]);
    // the hit color is the sphere's diffuse color
    assert_eq!(hit.color.raw(), [FX_ONE, 0, 0, FX_ONE]);
}

#[test]
fn trace_misses_when_the_ray_points_away() {
    let mut renderer = Renderer::new(4, 4);
    let ray = Ray::new(Vector::zero(), Vector::new(0, 0, -FX_ONE, 0));
    let miss = renderer.trace(&ray);
    assert_eq!(miss.object, None);
    assert_eq!(miss.distance, FX_INF);
    assert_eq!(miss.exit, FX_INF);
}

#[test]
fn trace_picks_the_closer_of_two_spheres() {
    let mut renderer = Renderer::new(4, 4);
    let material = renderer.scene.objects[0].material;
    renderer.scene = Scene {
        objects: vec![
            Sphere { position: Vector::new(0, 0, 9 * FX_ONE, FX_ONE), radius: FX_ONE, material },
            Sphere { position: Vector::new(0, 0, 5 * FX_ONE, FX_ONE), radius: FX_ONE, material },
        ],
        sun: renderer.scene.sun,
    };
    let hit = renderer.trace(&forward_ray());
    assert_eq!(hit.object, Some(1));
    assert_eq!(hit.distance, 4 * FX_ONE);
}

#[test]
fn single_sphere_single_pixel_shading_matches_the_formula() {
    // one sphere at (0,0,5) radius one, camera ray straight down +z,
    // no jitter: the pre-tonemap color is the Lambertian term plus the
    // Fresnel-weighted specular blend, composed here from the public
    // pieces the shading walk is specified over
    let mut renderer = Renderer::new(1, 1);
    let first = renderer.scene.objects[0];
    renderer.scene = Scene {
        objects: vec![first],
        sun: renderer.scene.sun,
    };

    let ray0 = forward_ray();
    let inter = renderer.trace(&ray0);
    assert_eq!(inter.object, Some(0));

    let metallic = first.material.metallic;
    let diffuse = first.material.diffuse;
    let white = Vector::broadcast(FX_ONE);

    let inverted = Vector::scale(&ray0.direction, -FX_ONE);
    let cos_theta = Vector::dot(&inter.normal, &inverted);
    let fresnel = renderer.fresnel(&inter, &ray0);

    let diffuse_term = Vector::scale(&diffuse,
        fx_mul(fx_sub(FX_ONE, metallic), fx_max0(cos_theta)));
    let specular_term = Vector::scale(&Vector::lerp(&white, &diffuse, metallic), fresnel);
    let expected = Vector::mul(&white, &Vector::add(&diffuse_term, &specular_term));

    let zero_jitter: Vec<i64> = vec![0, 0, 0, 0, 0, 0];
    let mut contribution = Vector::broadcast(FX_ONE);
    let mut ray = ray0;
    let pixel = renderer.shade_sampled(0, 0, 1, &mut contribution, &mut ray, &zero_jitter);

    assert_eq!(pixel.color, expected);
    assert_eq!(contribution, expected);
    assert_eq!(pixel.depth, FX_INF);
}

#[test]
fn zero_bounces_return_the_neutral_sentinel() {
    let mut renderer = Renderer::new(1, 1);
    let samples: Vec<i64> = vec![];
    let mut contribution = Vector::broadcast(3 * FX_ONE);
    let mut ray = forward_ray();
    let pixel = renderer.shade_sampled(0, 0, 0, &mut contribution, &mut ray, &samples);
    assert_eq!(pixel.color, Vector::broadcast(FX_ONE));
    assert_eq!(contribution, Vector::broadcast(3 * FX_ONE));
}

#[test]
fn missed_rays_sample_the_sky_gradient() {
    let mut renderer = Renderer::new(1, 1);
    renderer.scene = Scene { objects: vec![], sun: renderer.scene.sun };
    let samples: Vec<i64> = vec![0; 12];
    let mut contribution = Vector::broadcast(FX_ONE);
    // straight up: the clamped vertical component is one, so the blend
    // lands on the top sky color exactly
    let mut ray = Ray::new(Vector::zero(), Vector::new(0, FX_ONE, 0, 0));
    let pixel = renderer.shade_sampled(0, 0, 2, &mut contribution, &mut ray, &samples);
    assert_eq!(pixel.color.raw(), [34668, 52953, 60424, FX_ONE]);
}

#[test]
fn tonemap_stays_below_one_for_nonnegative_radiance() {
    let zero = Renderer::tonemap(Vector::zero());
    assert_eq!(zero.raw(), [0, 0, 0, 0]);
    let one = Renderer::tonemap(Vector::broadcast(FX_ONE));
    assert_eq!(one.x(), 40960);
    for c in [0, 1, FX_ONE / 2, FX_ONE, 10 * FX_ONE, 1000 * FX_ONE, i64::MAX] {
        let t = Renderer::tonemap(Vector::new(c, c, c, 0));
        assert!(0 <= t.x() && t.x() < FX_ONE);
        assert!(0 <= t.y() && t.y() < FX_ONE);
        assert!(0 <= t.z() && t.z() < FX_ONE);
    }
}

#[test]
fn gamma_correction_fixes_zero_and_one() {
    let zero = Renderer::gamma_correct(Vector::zero());
    assert_eq!(zero.raw(), [0, 0, 0, 0]);
    let one = Renderer::gamma_correct(Vector::broadcast(FX_ONE));
    assert_eq!(one.raw(), [FX_ONE, FX_ONE, FX_ONE, FX_ONE]);
    let negative = Renderer::gamma_correct(Vector::new(-FX_ONE, 0, 0, -FX_ONE));
    assert_eq!(negative.x(), 0);
    assert_eq!(negative.w(), -FX_ONE);
    // a quarter maps above itself under a sub-one exponent
    let quarter = Renderer::gamma_correct(Vector::new(FX_ONE / 4, 0, 0, 0));
    assert!(quarter.x() > FX_ONE / 4);
}

#[test]
fn first_accumulated_frame_equals_the_framebuffer() {
    let mut renderer = Renderer::new(2, 2);
    let samples = vec![Vector::broadcast(100); 4];
    renderer.apply_frame(&samples);
    assert_eq!(renderer.frame_count, 2);
    for i in 0..4 {
        assert_eq!(renderer.accumulated_data[i], Vector::broadcast(100));
        assert_eq!(renderer.framebuffer[i], Vector::broadcast(100));
    }
}

#[test]
fn displayed_framebuffer_is_the_running_mean() {
    let mut renderer = Renderer::new(2, 2);
    renderer.apply_frame(&vec![Vector::broadcast(100); 4]);
    renderer.apply_frame(&vec![Vector::broadcast(300); 4]);
    assert_eq!(renderer.frame_count, 3);
    for i in 0..4 {
        assert_eq!(renderer.accumulated_data[i], Vector::broadcast(400));
        // the mean of 100 and 300
        assert_eq!(renderer.framebuffer[i], Vector::broadcast(200));
    }
}

#[test]
fn camera_motion_discards_prior_accumulation() {
    let mut renderer = Renderer::new(2, 2);
    renderer.apply_frame(&vec![Vector::broadcast(100); 4]);
    renderer.apply_frame(&vec![Vector::broadcast(300); 4]);
    renderer.camera.moved = true;
    renderer.apply_frame(&vec![Vector::broadcast(500); 4]);
    assert_eq!(renderer.frame_count, 2);
    assert!(!renderer.camera.moved);
    for i in 0..4 {
        assert_eq!(renderer.accumulated_data[i], Vector::broadcast(500));
        assert_eq!(renderer.framebuffer[i], Vector::broadcast(500));
    }
}

#[test]
fn accumulation_off_writes_samples_directly() {
    let mut renderer = Renderer::new(2, 2);
    renderer.accumulate = false;
    renderer.apply_frame(&vec![Vector::broadcast(100); 4]);
    renderer.apply_frame(&vec![Vector::broadcast(300); 4]);
    for i in 0..4 {
        assert_eq!(renderer.accumulated_data[i], Vector::zero());
        assert_eq!(renderer.framebuffer[i], Vector::broadcast(300));
    }
}

#[test]
fn bitmap_exports_four_saturated_bytes_per_pixel() {
    let mut renderer = Renderer::new(2, 2);
    renderer.framebuffer[0] = Vector::new(FX_ONE / 2, 2 * FX_ONE, -FX_ONE, FX_ONE - 1);
    let bytes = renderer.bitmap();
    assert_eq!(bytes.len(), 16);
    assert_eq!(bytes[0], 127); // half scales to 127.5, truncated
    assert_eq!(bytes[1], 255); // overshoot saturates
    assert_eq!(bytes[2], 0); // negative floors at zero
    assert_eq!(bytes[3], 254); // just below one
    assert_eq!(&bytes[4..8], &[0, 0, 0, 0]);
}

#[test]
fn center_pixel_ray_has_no_lateral_component() {
    // the pipeline's own near/far span (0.1 to 1000) exceeds what the
    // 16.16 grid can cancel in the homogeneous w, so only the axial
    // shape is pinned here; the forward sign is checked on a narrower
    // frustum below
    let camera = Camera::new(90 * FX_ONE, 6554, 1000 * FX_ONE, 4, 4);
    assert_eq!(camera.rays().len(), 16);
    let center = camera.rays()[2 * 4 + 2];
    assert_eq!(center.origin, Vector::zero());
    assert_eq!(center.direction.x(), 0);
    assert_eq!(center.direction.y(), 0);
    assert_eq!(center.direction.w(), 0);
    assert!(center.direction.z() != 0);
}

#[test]
fn center_pixel_ray_points_forward_on_a_narrow_frustum() {
    // near one tenth, far ten: the homogeneous w survives truncation
    // and the center ray points along the facing +z axis
    let camera = Camera::new(90 * FX_ONE, 6554, 10 * FX_ONE, 4, 4);
    let center = camera.rays()[2 * 4 + 2];
    assert_eq!(center.direction.x(), 0);
    assert_eq!(center.direction.y(), 0);
    assert_eq!(center.direction.w(), 0);
    assert!(center.direction.z() > 0);
}

#[test]
fn idle_input_leaves_the_camera_unmoved() {
    let mut camera = Camera::new(90 * FX_ONE, 6554, 1000 * FX_ONE, 2, 2);
    let rays_before: Vec<Ray> = camera.rays().clone();
    camera.update(FX_ONE / 60, &InputState::idle());
    assert!(!camera.moved);
    assert_eq!(camera.rays().len(), rays_before.len());
    for (a, b) in camera.rays().iter().zip(rays_before.iter()) {
        assert_eq!(a, b);
    }
}

#[test]
fn moving_forward_walks_along_the_facing_direction() {
    // facing +z, one second forward at three quarters speed: z grows
    let mut camera = Camera::new(90 * FX_ONE, 6554, 1000 * FX_ONE, 2, 2);
    assert_eq!(camera.direction().z(), FX_ONE);
    let before = camera.position();
    let mut input = InputState::idle();
    input.move_forward = true;
    camera.update(FX_ONE, &input);
    assert_eq!(camera.position().z() - before.z(), 49152);
    assert!(camera.position().z() > before.z());
}

#[test]
fn movement_keys_move_and_flag_the_camera() {
    let mut camera = Camera::new(90 * FX_ONE, 6554, 1000 * FX_ONE, 2, 2);
    let before = camera.position();
    let mut input = InputState::idle();
    input.move_up = true;
    camera.update(FX_ONE, &input);
    assert!(camera.moved);
    // world up at three quarters speed for one second
    assert_eq!(camera.position().y() - before.y(), 49152);
}

#[test]
fn pitch_clamps_to_a_quarter_turn() {
    let mut camera = Camera::new(90 * FX_ONE, 6554, 1000 * FX_ONE, 2, 2);
    let mut input = InputState::idle();
    input.look_up = true;
    camera.update(100 * FX_ONE, &input);
    assert_eq!(camera.pitch, 51471);
    input.look_up = false;
    input.look_down = true;
    camera.update(1000 * FX_ONE, &input);
    assert_eq!(camera.pitch, -51471);
}

#[test]
fn drag_overrides_the_orientation() {
    let mut camera = Camera::new(90 * FX_ONE, 6554, 1000 * FX_ONE, 2, 2);
    let mut input = InputState::idle();
    input.look_left = true;
    camera.update(FX_ONE, &input);
    let mut drag = InputState::idle();
    drag.drag = Some((100, 0));
    camera.update(FX_ONE, &drag);
    // the drag overwrites, not accumulates
    assert_eq!(camera.yaw, 100);
}

#[test]
fn render_smoke_runs_and_keeps_the_invariants() {
    let mut renderer = Renderer::new(2, 2);
    renderer.update(&InputState::idle());
    renderer.render(2);
    assert_eq!(renderer.frame_count, 2);
    assert!(!renderer.camera.moved);
    assert_eq!(renderer.framebuffer().len(), 4);
    renderer.render(2);
    assert_eq!(renderer.frame_count, 3);
    let bytes = renderer.bitmap();
    assert_eq!(bytes.len(), 16);
    assert_eq!(renderer.size(), [2, 2]);
}

#[test]
fn compile_outcomes_fold_into_the_factory() {
    let mut factory = ShaderFactory::new(9);
    assert!(factory.compile_shader(1, Ok(7)).is_ok());
    assert_eq!(factory.shaders.len(), 1);
    assert_eq!(factory.shaders[0].shader_id, 7);
    assert_eq!(factory.shaders[0].shader_type, 1);
    assert_eq!(factory.shaders[0].program_id, 9);
    let failed = factory.compile_shader(2, Err(String::from("bad source")));
    assert_eq!(failed, Err(String::from("bad source")));
    assert_eq!(factory.shaders.len(), 1);
}
