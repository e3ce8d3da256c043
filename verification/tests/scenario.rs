//! Drives the engine through whole ticks with a real floating-point ray
//! tracer for the fixed scene, the way the rendering host does.

use orb_tracer::engine::{setup, LineBits, RayCastJob, RayOutcome, RayPath, RenderState, Vec3Bits};

const EPSILON: f32 = 0.001;

#[derive(Clone, Copy)]
struct V3 {
    x: f32,
    y: f32,
    z: f32,
}

fn v3(x: f32, y: f32, z: f32) -> V3 {
    V3 { x, y, z }
}

fn vadd(a: V3, b: V3) -> V3 {
    v3(a.x + b.x, a.y + b.y, a.z + b.z)
}

fn vsub(a: V3, b: V3) -> V3 {
    v3(a.x - b.x, a.y - b.y, a.z - b.z)
}

fn vscale(a: V3, s: f32) -> V3 {
    v3(a.x * s, a.y * s, a.z * s)
}

fn vdot(a: V3, b: V3) -> f32 {
    a.x * b.x + a.y * b.y + a.z * b.z
}

fn vcross(a: V3, b: V3) -> V3 {
    v3(
        a.y * b.z - a.z * b.y,
        a.z * b.x - a.x * b.z,
        a.x * b.y - a.y * b.x,
    )
}

fn vabs(a: V3) -> f32 {
    vdot(a, a).sqrt()
}

fn vnorm(a: V3) -> V3 {
    vscale(a, 1.0 / vabs(a))
}

fn from_bits(b: Vec3Bits) -> V3 {
    v3(
        f32::from_bits(b.x),
        f32::from_bits(b.y),
        f32::from_bits(b.z),
    )
}

fn to_bits(a: V3) -> Vec3Bits {
    Vec3Bits {
        x: a.x.to_bits(),
        y: a.y.to_bits(),
        z: a.z.to_bits(),
    }
}

fn sphere_intersect(center: V3, radius: f32, start: V3, dir: V3) -> Option<f32> {
    let adj = vsub(start, center);
    let v_d = vdot(adj, dir);
    let view_sqr = vdot(adj, adj);
    let chord = v_d * v_d - (view_sqr - radius * radius);
    if chord >= 0.0 {
        let d1 = -v_d + chord.sqrt();
        let d2 = -v_d - chord.sqrt();
        if d1 <= EPSILON && d2 <= EPSILON {
            None
        } else if d1 <= EPSILON {
            Some(d2)
        } else if d2 <= EPSILON {
            Some(d1)
        } else {
            Some(d1.min(d2))
        }
    } else {
        None
    }
}

fn plane_intersect(point: V3, normal: V3, start: V3, dir: V3) -> Option<f32> {
    let cos = vdot(dir, normal);
    if cos != 0.0 {
        let t = vdot(vsub(point, start), normal) / cos;
        if t > EPSILON {
            return Some(t);
        }
    }
    None
}

fn intersect_before(a: Option<f32>, b: Option<f32>) -> bool {
    match (a, b) {
        (Some(a_), Some(b_)) => a_ < b_,
        (Some(_), None) => true,
        _ => false,
    }
}

fn primary_ray(camera: V3, width: u32, height: u32, x: u32, y: u32, jx: u16, jy: u16) -> (V3, V3) {
    let t = vnorm(vsub(v3(0.0, 0.0, 0.0), camera));
    let b = vnorm(vcross(v3(0.0, -1.0, 0.0), t));
    let v = vcross(t, b);
    let w = width as f32;
    let h = height as f32;
    let d = EPSILON;
    let gx = d;
    let gy = gx * h / w;
    let shift_x = vscale(b, (2.0 * gx) / (w - 1.0));
    let shift_y = vscale(v, (2.0 * gy) / (h - 1.0));
    let view_0 = vsub(vsub(vscale(t, d), vscale(b, gx)), vscale(v, gy));
    let dx = jx as f32 / 0xFFFF as f32 - 0.5;
    let dy = jy as f32 / 0xFFFF as f32 - 0.5;
    let cur = vadd(
        vadd(view_0, vscale(shift_x, x as f32 + dx)),
        vscale(shift_y, y as f32 + dy),
    );
    (camera, vnorm(cur))
}

fn trace(job: &RayCastJob, camera: V3, width: u32, height: u32) -> RayOutcome {
    let (start, dir) = match job.path {
        RayPath::Primary { x, y, jx, jy } => primary_ray(camera, width, height, x, y, jx, jy),
        RayPath::Bounce { line } => (from_bits(line.start), from_bits(line.dir)),
    };
    let floor_p = v3(0.0, 0.0, 0.0);
    let floor_n = v3(0.0, 1.0, 0.0);
    let light_c = v3(2.0, 2.0, 0.0);
    let orb_c = v3(0.0, 1.0, 0.0);
    let sphere_col = sphere_intersect(orb_c, 1.0, start, dir);
    let light_col = sphere_intersect(light_c, 0.25, start, dir);
    let floor_col = plane_intersect(floor_p, floor_n, start, dir);
    if intersect_before(sphere_col, light_col) {
        let at = sphere_col.unwrap();
        let y = vadd(start, vscale(dir, at));
        let normal = vnorm(vsub(y, orb_c));
        let reflect = vnorm(vsub(dir, vscale(normal, 2.0 * vdot(dir, normal))));
        RayOutcome::OrbHit {
            bounce: LineBits {
                start: to_bits(y),
                dir: to_bits(reflect),
            },
        }
    } else if intersect_before(light_col, sphere_col) {
        RayOutcome::LightHit
    } else if let Some(d) = floor_col {
        let point = vadd(start, vscale(dir, d));
        let dx = (point.x.fract() + 1.0).fract();
        let dz = (point.z.fract() + 1.0).fract();
        let parity = dx < 0.5 && dz < 0.5 || dz > 0.5 && dx > 0.5;
        let reflect = vnorm(vsub(dir, vscale(floor_n, 2.0 * vdot(floor_n, dir))));
        RayOutcome::FloorHit {
            parity,
            bounce: LineBits {
                start: to_bits(point),
                dir: to_bits(reflect),
            },
        }
    } else {
        RayOutcome::Miss
    }
}

/// One whole tick as the host performs it: ease the camera, then drain
/// this tick's budget through the tracer, then let the engine reseed.
fn run_tick(s: &mut RenderState) {
    let camera = from_bits(s.camera());
    let target = from_bits(s.camera_target());
    let diff = vsub(camera, target);
    let moved = vabs(diff) != 0.0;
    let eased = if vabs(diff) < 0.1 {
        target
    } else {
        vsub(camera, vscale(diff, 0.1))
    };
    let (w, h) = (s.width(), s.height());
    s.begin_tick(moved, to_bits(eased));
    let cam_now = from_bits(s.camera());
    while let Some(job) = s.next_job() {
        let outcome = trace(&job, cam_now, w, h);
        s.resolve_job(outcome);
    }
    s.finish_tick();
}

#[test]
fn single_tick_at_rest_composites_every_pixel() {
    let mut s = setup(4, 4);
    // Snap the camera onto its target, discarding the setup pass and
    // seeding a fresh 16-ray pass of full weight.
    let target = s.camera_target();
    s.begin_tick(true, target);
    assert_eq!(s.active_rays(), 16);
    while let Some(job) = s.next_job() {
        if let RayPath::Primary { .. } = job.path {
            assert_eq!(job.alpha, 0xFF);
        }
        let outcome = trace(&job, from_bits(s.camera()), 4, 4);
        s.resolve_job(outcome);
    }
    s.finish_tick();
    // Every pixel was composited at least once: alpha forced to 0xFF, and
    // the surface colors are gray tones, so the channels stay equal.
    let img = s.img();
    for p in 0..16 {
        assert_eq!(img[4 * p + 3], 0xFF);
        assert_eq!(img[4 * p], img[4 * p + 1]);
        assert_eq!(img[4 * p + 1], img[4 * p + 2]);
    }
    // From (3, 3, 3) toward the origin the scene is in view: something
    // other than background must have been hit.
    assert!((0..16).any(|p| img[4 * p] != 0));
}

#[test]
fn camera_eases_to_target_and_image_converges() {
    let mut s = setup(4, 4);
    for _ in 0..300 {
        run_tick(&mut s);
    }
    // The camera has long since snapped exactly onto its target …
    assert!(s.camera() == s.camera_target());
    // … and the progressive passes have run out: the queue is drained for
    // good.
    assert_eq!(s.rays_per_pixel(), 32);
    assert_eq!(s.active_rays(), 0);
    run_tick(&mut s);
    assert_eq!(s.active_rays(), 0);
    for p in 0..16 {
        assert_eq!(s.img()[4 * p + 3], 0xFF);
    }
}

#[test]
fn driver_vector_algebra_is_sound() {
    // Sanity of the geometry this driver feeds the engine with: a
    // normalized vector has magnitude one, a cross product is orthogonal
    // to both factors, and the dot product is symmetric.
    let a = v3(3.0, -4.0, 12.0);
    let b = v3(-1.0, 2.0, 2.5);
    assert!((vabs(vnorm(a)) - 1.0).abs() < 1e-6);
    assert!((vabs(vnorm(b)) - 1.0).abs() < 1e-6);
    let c = vcross(a, b);
    assert!(vdot(c, a).abs() < 1e-4);
    assert!(vdot(c, b).abs() < 1e-4);
    assert_eq!(vdot(a, b), vdot(b, a));
}

#[test]
fn parallel_ray_never_hits_plane() {
    // A ray parallel to the floor reports no floor hit, wherever it
    // starts.
    for &(sx, sy, sz) in &[(0.0, 5.0, 0.0), (-3.0, 0.5, 2.0), (100.0, -1.0, 7.0)] {
        let start = v3(sx, sy, sz);
        let dir = v3(1.0, 0.0, 0.0);
        assert!(plane_intersect(v3(0.0, 0.0, 0.0), v3(0.0, 1.0, 0.0), start, dir).is_none());
    }
}

#[test]
fn head_on_sphere_hit_returns_near_root() {
    // Aimed straight at the orb's center from outside, the near root is
    // the distance to the center less the radius.
    let start = v3(0.0, 1.0, -5.0);
    let dir = v3(0.0, 0.0, 1.0);
    let hit = sphere_intersect(v3(0.0, 1.0, 0.0), 1.0, start, dir).unwrap();
    assert!((hit - 4.0).abs() < 1e-4);
    // Far enough off axis the same ray misses.
    let miss = sphere_intersect(v3(0.0, 1.0, 0.0), 1.0, v3(2.5, 1.0, -5.0), dir);
    assert!(miss.is_none());
}
