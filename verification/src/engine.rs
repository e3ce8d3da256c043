//! Progressive render engine.
//!
//! The engine owns the RGBA pixel buffer, the camera position and target,
//! the queue of pending ray-cast jobs and the progressive sample counter.
//! Ray geometry is floating point and is therefore carried through the
//! engine opaquely, as raw IEEE-754 single-precision bit words: the caller
//! evaluates each ray against the fixed scene and reports the outcome back,
//! while everything the engine decides — seeding, queue order, the per-tick
//! work budget, weight splitting across bounces and the exact integer
//! compositing rule — is stated and verified here over plain integers.
//!
//! One tick of the caller's loop is: `begin_tick` (with the eased camera),
//! then `next_job`/`resolve_job` until `next_job` yields nothing, then
//! `finish_tick`.

use crate::random_seq::{output_at, state_after, step_spec, RandomSeq};
use vstd::prelude::*;

verus! {

/// A 3-vector carried as raw single-precision bit words.  The engine never
/// interprets these; only the caller's floating-point code does.
#[derive(Clone, Copy, PartialEq, Eq, Structural)]
pub struct Vec3Bits {
    pub x: u32,
    pub y: u32,
    pub z: u32,
}

/// A ray (origin and direction), both as raw bit words.
#[derive(Clone, Copy, PartialEq, Eq, Structural)]
pub struct LineBits {
    pub start: Vec3Bits,
    pub dir: Vec3Bits,
}

/// Where a pending ray comes from.
///
/// A primary ray is recorded by its pixel coordinates and the two 16-bit
/// jitter words drawn for it; the caller derives the actual ray from the
/// current camera.  A bounce carries its full geometry, computed by the
/// caller when the parent ray hit a reflective surface.
#[derive(Clone, Copy, PartialEq, Eq, Structural)]
pub enum RayPath {
    Primary { x: u32, y: u32, jx: u16, jy: u16 },
    Bounce { line: LineBits },
}

/// One unit of pending work: a ray, the buffer offset of the pixel it
/// feeds (first of four RGBA bytes), and its remaining opacity weight.
#[derive(Clone, Copy, PartialEq, Eq, Structural)]
pub struct RayCastJob {
    pub path: RayPath,
    pub pixel: usize,
    pub alpha: u8,
}

/// What the caller found when it evaluated a job's ray against the scene:
/// the nearest surface hit, or no hit.  For the reflective surfaces it also
/// hands back the reflected ray it computed.  `parity` selects the
/// checkerboard tile the floor was hit on.
#[derive(Clone, Copy, PartialEq, Eq, Structural)]
pub enum RayOutcome {
    OrbHit { bounce: LineBits },
    LightHit,
    FloorHit { parity: bool, bounce: LineBits },
    Miss,
}

/// Largest number of pixels an engine accepts: keeps `4 * width * height`
/// and the per-tick budget `2 * width * height` within `u32`.
pub const MAX_PIXELS: u32 = 0x3FFF_FFFF;

/// Number of progressive sample passes after which no further pass is
/// seeded.
pub const SAMPLE_CAP: u8 = 32;

/// Bit word of `-10.0`, the starting camera's first coordinate.
pub const CAMERA_START_X: u32 = 0xC120_0000;

/// Bit word of `5.0`, the starting camera's second coordinate.
pub const CAMERA_START_Y: u32 = 0x40A0_0000;

/// Bit word of `-30.0`, the starting camera's third coordinate.
pub const CAMERA_START_Z: u32 = 0xC1F0_0000;

/// Bit word of `3.0`, each coordinate of the starting camera target.
pub const TARGET_START_WORD: u32 = 0x4040_0000;

/// Bit words of the camera's starting position, `(-10.0, 5.0, -30.0)`.
pub open spec fn camera_start() -> Vec3Bits {
    Vec3Bits { x: CAMERA_START_X, y: CAMERA_START_Y, z: CAMERA_START_Z }
}

/// Bit words of the starting camera target, `(3.0, 3.0, 3.0)`.
pub open spec fn target_start() -> Vec3Bits {
    Vec3Bits { x: TARGET_START_WORD, y: TARGET_START_WORD, z: TARGET_START_WORD }
}

/// The progressive renderer's whole state.
pub struct RenderState {
    width: u32,
    height: u32,
    img_data: Vec<u8>,
    random: RandomSeq,
    camera: Vec3Bits,
    camera_target: Vec3Bits,
    active_rays: std::collections::VecDeque<RayCastJob>,
    rays_per_pixel: u8,
    budget: u32,
    current: Option<RayCastJob>,
}

/// A job is well formed for a `width * height` buffer when its pixel offset
/// addresses four in-range bytes on a pixel boundary, and primary
/// coordinates are in range.
pub open spec fn job_wf(j: RayCastJob, width: u32, height: u32) -> bool {
    &&& j.pixel + 4 <= 4 * width * height
    &&& j.pixel % 4 == 0
    &&& (j.path matches RayPath::Primary { x, y, .. } ==> x < width && y < height)
}

/// The primary-ray job seeded for pixel `k` (row-major) with weight
/// `alpha`, drawing jitter from outputs `2k` and `2k + 1` of `rng`.
pub open spec fn seeded_job(rng: RandomSeq, width: u32, k: int, alpha: u8) -> RayCastJob {
    RayCastJob {
        path: RayPath::Primary {
            x: (k % (width as int)) as u32,
            y: (k / (width as int)) as u32,
            jx: (output_at(rng, (2 * k) as nat) & 0xFFFF) as u16,
            jy: (output_at(rng, (2 * k + 1) as nat) & 0xFFFF) as u16,
        },
        pixel: (4 * k) as usize,
        alpha: alpha,
    }
}

/// One full primary pass: one job per pixel, in row-major order.
pub open spec fn seeded_pass(rng: RandomSeq, width: u32, height: u32, alpha: u8) -> Seq<
    RayCastJob,
> {
    Seq::new((width * height) as nat, |k: int| seeded_job(rng, width, k, alpha))
}

impl RenderState {
    /// Internal consistency: positive extent within bounds, a buffer of
    /// exactly `4 * width * height` bytes, the sample counter within its
    /// cap, and every queued or in-flight job well formed.
    pub closed spec fn wf(self) -> bool {
        &&& 1 <= self.width
        &&& 1 <= self.height
        &&& self.width * self.height <= MAX_PIXELS
        &&& self.img_data@.len() == 4 * self.width * self.height
        &&& self.rays_per_pixel <= SAMPLE_CAP
        &&& forall|k: int|
            0 <= k < self.active_rays@.len() ==> job_wf(
                #[trigger] self.active_rays@[k],
                self.width,
                self.height,
            )
        &&& (self.current matches Some(j) ==> job_wf(j, self.width, self.height))
    }

    pub closed spec fn spec_width(self) -> u32 {
        self.width
    }

    pub closed spec fn spec_height(self) -> u32 {
        self.height
    }

    pub closed spec fn spec_img(self) -> Seq<u8> {
        self.img_data@
    }

    pub closed spec fn spec_random(self) -> RandomSeq {
        self.random
    }

    pub closed spec fn spec_camera(self) -> Vec3Bits {
        self.camera
    }

    pub closed spec fn spec_camera_target(self) -> Vec3Bits {
        self.camera_target
    }

    pub closed spec fn spec_queue(self) -> Seq<RayCastJob> {
        self.active_rays@
    }

    pub closed spec fn spec_rays_per_pixel(self) -> u8 {
        self.rays_per_pixel
    }

    pub closed spec fn spec_budget(self) -> u32 {
        self.budget
    }

    pub closed spec fn spec_current(self) -> Option<RayCastJob> {
        self.current
    }

    /// The image width in pixels.
    pub fn width(&self) -> (r: u32)
        ensures
            r == self.spec_width(),
    {
        self.width
    }

    /// The image height in pixels.
    pub fn height(&self) -> (r: u32)
        ensures
            r == self.spec_height(),
    {
        self.height
    }

    /// The pixel buffer, read-only: `4 * width * height` RGBA bytes,
    /// row-major.
    pub fn img(&self) -> (r: &Vec<u8>)
        ensures
            r@ == self.spec_img(),
    {
        &self.img_data
    }

    /// How many ray-cast jobs are still pending.
    pub fn active_rays(&self) -> (r: usize)
        ensures
            r == self.spec_queue().len(),
    {
        self.active_rays.len()
    }

    /// The camera's current position, as raw bit words.
    pub fn camera(&self) -> (r: Vec3Bits)
        ensures
            r == self.spec_camera(),
    {
        self.camera
    }

    /// The position the camera is easing toward, as raw bit words.
    pub fn camera_target(&self) -> (r: Vec3Bits)
        ensures
            r == self.spec_camera_target(),
    {
        self.camera_target
    }

    /// How many progressive sample passes have been seeded since the
    /// camera last moved.
    pub fn rays_per_pixel(&self) -> (r: u8)
        ensures
            r == self.spec_rays_per_pixel(),
    {
        self.rays_per_pixel
    }

    /// Re-aims the camera easing.  Takes effect on the next tick; nothing
    /// else changes.
    pub fn set_camera_to(&mut self, x: u32, y: u32, z: u32)
        ensures
            final(self).spec_camera_target() == (Vec3Bits { x, y, z }),
            final(self).spec_width() == old(self).spec_width(),
            final(self).spec_height() == old(self).spec_height(),
            final(self).spec_img() == old(self).spec_img(),
            final(self).spec_random() == old(self).spec_random(),
            final(self).spec_camera() == old(self).spec_camera(),
            final(self).spec_queue() == old(self).spec_queue(),
            final(self).spec_rays_per_pixel() == old(self).spec_rays_per_pixel(),
            final(self).spec_budget() == old(self).spec_budget(),
            final(self).spec_current() == old(self).spec_current(),
            old(self).wf() ==> final(self).wf(),
    {
        self.camera_target = Vec3Bits { x, y, z };
    }

    /// Discards all pending work, zeroes every byte of the pixel buffer and
    /// resets the progressive sample counter.
    fn clear_screen(&mut self)
        requires
            old(self).wf(),
        ensures
            final(self).wf(),
            final(self).spec_img().len() == old(self).spec_img().len(),
            forall|i: int|
                0 <= i < final(self).spec_img().len() ==> final(self).spec_img()[i] == 0,
            final(self).spec_queue() == Seq::<RayCastJob>::empty(),
            final(self).spec_rays_per_pixel() == 0,
            final(self).spec_width() == old(self).spec_width(),
            final(self).spec_height() == old(self).spec_height(),
            final(self).spec_random() == old(self).spec_random(),
            final(self).spec_camera() == old(self).spec_camera(),
            final(self).spec_camera_target() == old(self).spec_camera_target(),
            final(self).spec_budget() == old(self).spec_budget(),
            final(self).spec_current() == old(self).spec_current(),
    {
        let ghost orig = *self;
        self.active_rays.clear();
        let n = self.img_data.len();
        let mut i: usize = 0;
        while i < n
            invariant
                i <= n,
                n == self.img_data@.len(),
                forall|j: int| 0 <= j < i ==> self.img_data@[j] == 0,
                self.width == orig.width,
                self.height == orig.height,
                self.random == orig.random,
                self.camera == orig.camera,
                self.camera_target == orig.camera_target,
                self.active_rays@ == Seq::<RayCastJob>::empty(),
                self.rays_per_pixel == orig.rays_per_pixel,
                self.budget == orig.budget,
                self.current == orig.current,
                orig.wf(),
            decreases n - i,
        {
            self.img_data[i] = 0;
            i += 1;
        }
        self.rays_per_pixel = 0;
    }

    /// Appends one full primary-ray pass to the queue: one job per pixel in
    /// row-major order, each with weight `alpha` and two fresh jitter words
    /// drawn from the random sequence.
    fn cast_from_camera(&mut self, alpha: u8)
        requires
            old(self).wf(),
        ensures
            final(self).wf(),
            final(self).spec_queue() == old(self).spec_queue() + seeded_pass(
                old(self).spec_random(),
                old(self).spec_width(),
                old(self).spec_height(),
                alpha,
            ),
            final(self).spec_random() == state_after(
                old(self).spec_random(),
                (2 * old(self).spec_width() * old(self).spec_height()) as nat,
            ),
            final(self).spec_width() == old(self).spec_width(),
            final(self).spec_height() == old(self).spec_height(),
            final(self).spec_img() == old(self).spec_img(),
            final(self).spec_camera() == old(self).spec_camera(),
            final(self).spec_camera_target() == old(self).spec_camera_target(),
            final(self).spec_rays_per_pixel() == old(self).spec_rays_per_pixel(),
            final(self).spec_budget() == old(self).spec_budget(),
            final(self).spec_current() == old(self).spec_current(),
    {
        let ghost orig = *self;
        let w = self.width;
        let h = self.height;
        let mut y: u32 = 0;
        while y < h
            invariant
                y <= h,
                w == orig.width,
                h == orig.height,
                orig.wf(),
                self.width == orig.width,
                self.height == orig.height,
                self.img_data == orig.img_data,
                self.camera == orig.camera,
                self.camera_target == orig.camera_target,
                self.rays_per_pixel == orig.rays_per_pixel,
                self.budget == orig.budget,
                self.current == orig.current,
                self.random == state_after(orig.random, (2 * (y * w)) as nat),
                self.active_rays@ == orig.active_rays@ + Seq::new(
                    (y * w) as nat,
                    |k: int| seeded_job(orig.random, w, k, alpha),
                ),
            decreases h - y,
        {
            proof {
                assert(y * w + w <= h * w) by (nonlinear_arith)
                    requires
                        y < h,
                        0 < w,
                ;
                assert(h * w == w * h) by (nonlinear_arith);
            }
            let mut x: u32 = 0;
            while x < w
                invariant
                    x <= w,
                    y < h,
                    w == orig.width,
                    h == orig.height,
                    orig.wf(),
                    y * w + w <= w * h,
                    self.width == orig.width,
                    self.height == orig.height,
                    self.img_data == orig.img_data,
                    self.camera == orig.camera,
                    self.camera_target == orig.camera_target,
                    self.rays_per_pixel == orig.rays_per_pixel,
                    self.budget == orig.budget,
                    self.current == orig.current,
                    self.random == state_after(orig.random, (2 * (y * w + x)) as nat),
                    self.active_rays@ == orig.active_rays@ + Seq::new(
                        (y * w + x) as nat,
                        |k: int| seeded_job(orig.random, w, k, alpha),
                    ),
                decreases w - x,
            {
                let ghost k: int = y * w + x;
                let rx: u64 = self.random.next();
                let ry: u64 = self.random.next();
                let idx: u64 = rx & 0xFFFF;
                let idy: u64 = ry & 0xFFFF;
                proof {
                    assert(idx <= 0xFFFF && idy <= 0xFFFF) by (bit_vector)
                        requires
                            idx == rx & 0xFFFF && idy == ry & 0xFFFF,
                    ;
                }
                let jx = idx as u16;
                let jy = idy as u16;
                proof {
                    // Two generator steps advance the ghost step count by two.
                    assert(state_after(orig.random, (2 * k + 1) as nat) == step_spec(
                        state_after(orig.random, (2 * k) as nat),
                    ));
                    assert(state_after(orig.random, (2 * k + 2) as nat) == step_spec(
                        state_after(orig.random, (2 * k + 1) as nat),
                    ));
                }
                let pixel = ((x + y * w) * 4) as usize;
                let job = RayCastJob { path: RayPath::Primary { x, y, jx, jy }, pixel, alpha };
                self.active_rays.push_back(job);
                proof {
                    vstd::arithmetic::div_mod::lemma_fundamental_div_mod_converse(
                        k,
                        w as int,
                        y as int,
                        x as int,
                    );
                    assert(job == seeded_job(orig.random, w, k, alpha));
                    assert(self.active_rays@ =~= orig.active_rays@ + Seq::new(
                        (k + 1) as nat,
                        |k: int| seeded_job(orig.random, w, k, alpha),
                    ));
                }
                x += 1;
            }
            proof {
                assert(y * w + w == (y + 1) * w) by (nonlinear_arith);
            }
            y += 1;
        }
        proof {
            assert(2 * (h * w) == 2 * w * h) by (nonlinear_arith);
            assert(self.active_rays@ == orig.active_rays@ + seeded_pass(
                orig.random,
                w,
                h,
                alpha,
            )) by {
                assert((h * w) as nat == (w * h) as nat) by (nonlinear_arith);
            }
            // Every freshly seeded job addresses four in-range bytes.
            assert forall|i: int| 0 <= i < self.active_rays@.len() implies job_wf(
                #[trigger] self.active_rays@[i],
                w,
                h,
            ) by {
                // Split on whether the job was already queued or is fresh.
                if i >= orig.active_rays@.len() {
                    let k = i - orig.active_rays@.len();
                    assert(0 <= k < (w * h) as int);
                    assert(self.active_rays@[i] == seeded_job(orig.random, w, k, alpha));
                    assert(0 <= k % (w as int) < w as int && 0 <= k / (w as int) < h as int) by (
                    nonlinear_arith)
                        requires
                            0 < w,
                            0 <= k < w * h,
                    ;
                    assert(w * h <= MAX_PIXELS);
                    assert(4 * (w * h) == 4 * w * h) by (nonlinear_arith);
                    assert(4 * k + 4 <= 4 * (w * h));
                    assert(seeded_job(orig.random, w, k, alpha).pixel == 4 * k);
                    assert((4 * k) % 4 == 0);
                    assert(job_wf(seeded_job(orig.random, w, k, alpha), w, h));
                } else {
                    assert(self.active_rays@[i] == orig.active_rays@[i]);
                    assert(job_wf(orig.active_rays@[i], w, h));
                }
            }
        }
    }

    /// Opens a tick.  Whether the camera is in motion is a floating-point
    /// question (is the distance to the target nonzero?), so the caller
    /// answers it and hands over the eased position; the contract states
    /// what follows from either answer.  Motion discards all accumulated
    /// state and seeds a fresh full-weight pass.  Either way the tick's
    /// work budget is reset to `2 * width * height` jobs.
    pub fn begin_tick(&mut self, camera_moved: bool, new_camera: Vec3Bits)
        requires
            old(self).wf(),
            old(self).spec_current() is None,
        ensures
            final(self).wf(),
            final(self).spec_current() is None,
            final(self).spec_budget() == 2 * old(self).spec_width() * old(self).spec_height(),
            final(self).spec_width() == old(self).spec_width(),
            final(self).spec_height() == old(self).spec_height(),
            final(self).spec_camera_target() == old(self).spec_camera_target(),
            !camera_moved ==> {
                &&& final(self).spec_camera() == old(self).spec_camera()
                &&& final(self).spec_img() == old(self).spec_img()
                &&& final(self).spec_random() == old(self).spec_random()
                &&& final(self).spec_queue() == old(self).spec_queue()
                &&& final(self).spec_rays_per_pixel() == old(self).spec_rays_per_pixel()
            },
            camera_moved ==> {
                &&& final(self).spec_camera() == new_camera
                &&& final(self).spec_img().len() == old(self).spec_img().len()
                &&& forall|i: int|
                    0 <= i < final(self).spec_img().len() ==> final(self).spec_img()[i] == 0
                &&& final(self).spec_rays_per_pixel() == 0
                &&& final(self).spec_queue() == seeded_pass(
                    old(self).spec_random(),
                    old(self).spec_width(),
                    old(self).spec_height(),
                    0xFF,
                )
                &&& final(self).spec_random() == state_after(
                    old(self).spec_random(),
                    (2 * old(self).spec_width() * old(self).spec_height()) as nat,
                )
            },
    {
        if camera_moved {
            self.camera = new_camera;
            self.clear_screen();
            self.cast_from_camera(0xFF);
        }
        proof {
            assert(2 * (self.width * self.height) == 2 * self.width * self.height)
                by (nonlinear_arith);
            assert(self.width <= self.width * self.height) by (nonlinear_arith)
                requires
                    1 <= self.height,
            ;
        }
        self.budget = 2 * self.width * self.height;
    }

    /// Takes the next unit of work for this tick: the front of the queue,
    /// as long as any work budget is left.  The job stays recorded as
    /// in-flight until `resolve_job` reports its outcome.
    pub fn next_job(&mut self) -> (r: Option<RayCastJob>)
        requires
            old(self).wf(),
            old(self).spec_current() is None,
        ensures
            final(self).wf(),
            final(self).spec_width() == old(self).spec_width(),
            final(self).spec_height() == old(self).spec_height(),
            final(self).spec_img() == old(self).spec_img(),
            final(self).spec_random() == old(self).spec_random(),
            final(self).spec_camera() == old(self).spec_camera(),
            final(self).spec_camera_target() == old(self).spec_camera_target(),
            final(self).spec_rays_per_pixel() == old(self).spec_rays_per_pixel(),
            (old(self).spec_budget() == 0 || old(self).spec_queue().len() == 0) ==> {
                &&& r is None
                &&& final(self).spec_queue() == old(self).spec_queue()
                &&& final(self).spec_budget() == old(self).spec_budget()
                &&& final(self).spec_current() is None
            },
            (old(self).spec_budget() > 0 && old(self).spec_queue().len() > 0) ==> {
                &&& r == Some(old(self).spec_queue()[0])
                &&& final(self).spec_current() == Some(old(self).spec_queue()[0])
                &&& final(self).spec_queue() == old(self).spec_queue().subrange(
                    1,
                    old(self).spec_queue().len() as int,
                )
                &&& final(self).spec_budget() == old(self).spec_budget() - 1
            },
    {
        if self.budget == 0 {
            return None;
        }
        match self.active_rays.pop_front() {
            None => None,
            Some(job) => {
                self.budget = self.budget - 1;
                self.current = Some(job);
                Some(job)
            },
        }
    }

    /// Closes out the in-flight job with the outcome the caller computed
    /// for its ray: blends the outcome's color into the job's pixel at the
    /// weight the job keeps, and re-queues the reflected bounce at its
    /// share of the weight if any is left.
    pub fn resolve_job(&mut self, outcome: RayOutcome)
        requires
            old(self).wf(),
            old(self).spec_current() is Some,
        ensures
            final(self).wf(),
            final(self).spec_current() is None,
            final(self).spec_width() == old(self).spec_width(),
            final(self).spec_height() == old(self).spec_height(),
            final(self).spec_random() == old(self).spec_random(),
            final(self).spec_camera() == old(self).spec_camera(),
            final(self).spec_camera_target() == old(self).spec_camera_target(),
            final(self).spec_rays_per_pixel() == old(self).spec_rays_per_pixel(),
            final(self).spec_budget() == old(self).spec_budget(),
            final(self).spec_img() == composited(
                old(self).spec_img(),
                old(self).spec_current()->0.pixel as int,
                outcome_color(outcome),
                (old(self).spec_current()->0.alpha - bounce_weight(
                    outcome,
                    old(self).spec_current()->0.alpha,
                )) as u8,
            ),
            final(self).spec_queue() == if bounce_weight(
                outcome,
                old(self).spec_current()->0.alpha,
            ) != 0 {
                old(self).spec_queue().push(
                    RayCastJob {
                        path: RayPath::Bounce { line: outcome_bounce_line(outcome) },
                        pixel: old(self).spec_current()->0.pixel,
                        alpha: bounce_weight(outcome, old(self).spec_current()->0.alpha),
                    },
                )
            } else {
                old(self).spec_queue()
            },
    {
        let job = self.current.unwrap();
        self.current = None;
        let (col, ray_alpha): (u8, u8) = match outcome {
            RayOutcome::OrbHit { .. } => (0xAA, job.alpha / 2),
            RayOutcome::LightHit => (0xFF, 0),
            RayOutcome::FloorHit { parity, .. } => (
                if parity {
                    0xDD
                } else {
                    0x22
                },
                job.alpha / 8,
            ),
            RayOutcome::Miss => (0x00, 0),
        };
        if ray_alpha != 0 {
            let line = match outcome {
                RayOutcome::OrbHit { bounce } => bounce,
                RayOutcome::FloorHit { bounce, .. } => bounce,
                _ => LineBits {
                    start: Vec3Bits { x: 0, y: 0, z: 0 },
                    dir: Vec3Bits { x: 0, y: 0, z: 0 },
                },
            };
            self.active_rays.push_back(
                RayCastJob { path: RayPath::Bounce { line }, pixel: job.pixel, alpha: ray_alpha },
            );
        }
        let absorbed: u8 = job.alpha - ray_alpha;
        let pixel = job.pixel;
        self.img_data[pixel] = col_lerp(self.img_data[pixel], absorbed, col);
        self.img_data[pixel + 1] = col_lerp(self.img_data[pixel + 1], absorbed, col);
        self.img_data[pixel + 2] = col_lerp(self.img_data[pixel + 2], absorbed, col);
        self.img_data[pixel + 3] = 0xFF;
    }

    /// Closes a tick.  If every pending ray has been resolved, the camera
    /// rests on its target and the progressive sample cap is not reached
    /// yet, counts one more pass and seeds it, weighted down by the number
    /// of passes so far; otherwise nothing changes.
    pub fn finish_tick(&mut self)
        requires
            old(self).wf(),
            old(self).spec_current() is None,
        ensures
            final(self).wf(),
            final(self).spec_current() is None,
            (old(self).spec_queue().len() == 0 && old(self).spec_camera() == old(
                self,
            ).spec_camera_target() && old(self).spec_rays_per_pixel() < SAMPLE_CAP) ==> {
                &&& final(self).spec_rays_per_pixel() == old(self).spec_rays_per_pixel() + 1
                &&& final(self).spec_queue() == seeded_pass(
                    old(self).spec_random(),
                    old(self).spec_width(),
                    old(self).spec_height(),
                    pass_weight((old(self).spec_rays_per_pixel() + 1) as u8),
                )
                &&& final(self).spec_random() == state_after(
                    old(self).spec_random(),
                    (2 * old(self).spec_width() * old(self).spec_height()) as nat,
                )
                &&& final(self).spec_img() == old(self).spec_img()
                &&& final(self).spec_width() == old(self).spec_width()
                &&& final(self).spec_height() == old(self).spec_height()
                &&& final(self).spec_camera() == old(self).spec_camera()
                &&& final(self).spec_camera_target() == old(self).spec_camera_target()
                &&& final(self).spec_budget() == old(self).spec_budget()
            },
            !(old(self).spec_queue().len() == 0 && old(self).spec_camera() == old(
                self,
            ).spec_camera_target() && old(self).spec_rays_per_pixel() < SAMPLE_CAP)
                ==> *final(self) == *old(self),
    {
        if self.active_rays.len() == 0 && self.camera == self.camera_target
            && self.rays_per_pixel < SAMPLE_CAP {
            self.rays_per_pixel = self.rays_per_pixel + 1;
            let alpha: u8 = 0xFF / self.rays_per_pixel;
            self.cast_from_camera(alpha);
        }
    }
}

/// Exact per-channel blend of a sample onto an accumulated channel value:
/// integer arithmetic, truncated toward zero.
pub open spec fn col_lerp_spec(val: u8, alpha: u8, col: u8) -> u8 {
    ((val * (255 - alpha) + col * alpha) / 255) as u8
}

fn col_lerp(val: u8, alpha: u8, col: u8) -> (r: u8)
    ensures
        r == col_lerp_spec(val, alpha, col),
{
    let promoted_val: u32 = val as u32;
    let promoted_alpha: u32 = alpha as u32;
    let promoted_col: u32 = col as u32;
    proof {
        assert(promoted_val * (255 - promoted_alpha) <= 255 * 255 && promoted_col * promoted_alpha
            <= 255 * 255) by (nonlinear_arith)
            requires
                promoted_val <= 255,
                promoted_alpha <= 255,
                promoted_col <= 255,
        ;
    }
    let new_col: u32 = (promoted_val * (255 - promoted_alpha) + (promoted_col * promoted_alpha))
        / 255;
    new_col as u8
}

/// The buffer after one sample of color `col` at opacity `alpha` lands on
/// the pixel whose four RGBA bytes start at `pixel`: the three color
/// channels are blended, the alpha byte is forced to `0xFF`.
pub open spec fn composited(img: Seq<u8>, pixel: int, col: u8, alpha: u8) -> Seq<u8> {
    img.update(pixel, col_lerp_spec(img[pixel], alpha, col)).update(
        pixel + 1,
        col_lerp_spec(img[pixel + 1], alpha, col),
    ).update(pixel + 2, col_lerp_spec(img[pixel + 2], alpha, col)).update(pixel + 3, 0xFF)
}

/// The color each outcome composites: the orb's surface gray, the light's
/// white, one of the two checkerboard tones, or black for a miss.
pub open spec fn outcome_color(outcome: RayOutcome) -> u8 {
    match outcome {
        RayOutcome::OrbHit { .. } => 0xAA,
        RayOutcome::LightHit => 0xFF,
        RayOutcome::FloorHit { parity, .. } => if parity {
            0xDD
        } else {
            0x22
        },
        RayOutcome::Miss => 0x00,
    }
}

/// The weight handed on to a reflected bounce: half of the job's weight
/// off the orb, an eighth off the floor, nothing otherwise.
pub open spec fn bounce_weight(outcome: RayOutcome, alpha: u8) -> u8 {
    match outcome {
        RayOutcome::OrbHit { .. } => alpha / 2,
        RayOutcome::FloorHit { .. } => alpha / 8,
        _ => 0,
    }
}

/// The reflected ray an outcome carries; outcomes without one yield a
/// placeholder that is never enqueued, since their bounce weight is zero.
pub open spec fn outcome_bounce_line(outcome: RayOutcome) -> LineBits {
    match outcome {
        RayOutcome::OrbHit { bounce } => bounce,
        RayOutcome::FloorHit { bounce, .. } => bounce,
        _ => LineBits {
            start: Vec3Bits { x: 0, y: 0, z: 0 },
            dir: Vec3Bits { x: 0, y: 0, z: 0 },
        },
    }
}

/// The weight of the primary rays of progressive pass number `rpp`.
pub open spec fn pass_weight(rpp: u8) -> u8
    recommends
        rpp >= 1,
{
    (255 as int / rpp as int) as u8
}

/// How many times a weight can be halved before it reaches zero.  Each
/// bounce strictly reduces it, so it bounds the length of the reflection
/// chain a job can still spawn.
pub open spec fn weight_depth(alpha: u8) -> nat
    decreases alpha,
{
    if alpha == 0 {
        0
    } else {
        1 + weight_depth(alpha / 2)
    }
}

proof fn lemma_weight_depth_monotone(a: u8, b: u8)
    requires
        a <= b,
    ensures
        weight_depth(a) <= weight_depth(b),
    decreases b,
{
    if a > 0 {
        lemma_weight_depth_monotone(a / 2, b / 2);
    }
}

/// Law: along any chain of re-queued reflections the halving depth of the
/// weight strictly decreases, so the chain spawned by one job is finite:
/// once the camera rests, the queue's work runs out.
pub proof fn lemma_bounce_depth_decreases(outcome: RayOutcome, alpha: u8)
    requires
        alpha > 0,
    ensures
        weight_depth(bounce_weight(outcome, alpha)) < weight_depth(alpha),
{
    lemma_weight_depth_monotone(bounce_weight(outcome, alpha), alpha / 2);
}

/// The total halving depth of all weights in a queue: the work a queue
/// can still cause, counting every reflection it can spawn.
pub open spec fn queue_potential(q: Seq<RayCastJob>) -> nat
    decreases q.len(),
{
    if q.len() == 0 {
        0
    } else {
        weight_depth(q[0].alpha) + queue_potential(q.drop_first())
    }
}

proof fn lemma_queue_potential_push(q: Seq<RayCastJob>, job: RayCastJob)
    ensures
        queue_potential(q.push(job)) == queue_potential(q) + weight_depth(job.alpha),
    decreases q.len(),
{
    if q.len() == 0 {
        assert(q.push(job)[0] == job);
        assert(queue_potential(Seq::<RayCastJob>::empty()) == 0);
        assert(q.push(job).drop_first() =~= Seq::<RayCastJob>::empty());
        assert(queue_potential(q.push(job)) == weight_depth(job.alpha));
    } else {
        assert(q.push(job)[0] == q[0]);
        assert(q.push(job).drop_first() =~= q.drop_first().push(job));
        lemma_queue_potential_push(q.drop_first(), job);
        assert(queue_potential(q.push(job)) == weight_depth(q[0].alpha) + queue_potential(
            q.drop_first().push(job),
        ));
    }
}

/// Law: taking the front job and re-queuing its bounce, the way one
/// `next_job`/`resolve_job` round transforms the queue, never raises the
/// queue's potential, and lowers either the potential or the length.
/// Rounds from a queue of bounded length therefore cannot go on forever:
/// once the camera rests and no pass is seeded, the queue drains to
/// nothing and stays there.
pub proof fn lemma_round_decreases_queue_measure(q: Seq<RayCastJob>, outcome: RayOutcome)
    requires
        q.len() > 0,
    ensures
        ({
            let alpha = q[0].alpha;
            let rest = q.subrange(1, q.len() as int);
            let after = if bounce_weight(outcome, alpha) != 0 {
                rest.push(
                    RayCastJob {
                        path: RayPath::Bounce { line: outcome_bounce_line(outcome) },
                        pixel: q[0].pixel,
                        alpha: bounce_weight(outcome, alpha),
                    },
                )
            } else {
                rest
            };
            &&& queue_potential(after) <= queue_potential(q)
            &&& (queue_potential(after) < queue_potential(q) || after.len() < q.len())
        }),
{
    let alpha = q[0].alpha;
    let rest = q.subrange(1, q.len() as int);
    assert(rest =~= q.drop_first());
    assert(queue_potential(q) == weight_depth(alpha) + queue_potential(rest));
    if bounce_weight(outcome, alpha) != 0 {
        let bounce = RayCastJob {
            path: RayPath::Bounce { line: outcome_bounce_line(outcome) },
            pixel: q[0].pixel,
            alpha: bounce_weight(outcome, alpha),
        };
        lemma_queue_potential_push(rest, bounce);
        lemma_bounce_depth_decreases(outcome, alpha);
    }
}

/// Law: a resolved ray hands at most half its weight to its bounce; a ray
/// with weight left always hands on strictly less than it had, and a spent
/// ray hands on nothing.  The chain of re-queued reflections that starts
/// at any job therefore always terminates.
pub proof fn lemma_bounce_weight_decreases(outcome: RayOutcome, alpha: u8)
    ensures
        bounce_weight(outcome, alpha) <= alpha / 2,
        alpha > 0 ==> bounce_weight(outcome, alpha) < alpha,
        alpha == 0 ==> bounce_weight(outcome, alpha) == 0,
{
}

/// Builds a ready engine: a zeroed `4 * width * height`-byte RGBA buffer,
/// the fixed starting camera and target, the random sequence at its fixed
/// seed, and one full primary pass already queued at full weight.
pub fn setup(width: u32, height: u32) -> (r: RenderState)
    requires
        1 <= width,
        1 <= height,
        width * height <= MAX_PIXELS,
    ensures
        r.wf(),
        r.spec_width() == width,
        r.spec_height() == height,
        r.spec_img().len() == 4 * width * height,
        forall|i: int| 0 <= i < r.spec_img().len() ==> r.spec_img()[i] == 0,
        r.spec_camera() == camera_start(),
        r.spec_camera_target() == target_start(),
        r.spec_queue() == seeded_pass(crate::random_seq::seed_state(), width, height, 0xFF),
        r.spec_random() == state_after(
            crate::random_seq::seed_state(),
            (2 * width * height) as nat,
        ),
        r.spec_rays_per_pixel() == 0,
        r.spec_budget() == 0,
        r.spec_current() is None,
{
    proof {
        assert(4 * (width * height) == 4 * width * height) by (nonlinear_arith);
        assert(width <= width * height && 4 * width * height <= 4 * MAX_PIXELS) by (
        nonlinear_arith)
            requires
                1 <= height,
                width * height <= MAX_PIXELS,
        ;
    }
    let len = (4 * width * height) as usize;
    let mut ret = RenderState {
        width,
        height,
        img_data: vec![0u8; len],
        random: RandomSeq::new(),
        camera: Vec3Bits { x: CAMERA_START_X, y: CAMERA_START_Y, z: CAMERA_START_Z },
        camera_target: Vec3Bits {
            x: TARGET_START_WORD,
            y: TARGET_START_WORD,
            z: TARGET_START_WORD,
        },
        active_rays: std::collections::VecDeque::new(),
        rays_per_pixel: 1,
        budget: 0,
        current: None,
    };
    ret.clear_screen();
    ret.cast_from_camera(0xFF);
    ret
}

} // verus!
