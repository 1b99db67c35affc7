//! The camera pose in fixed point and the per-frame motion integrator.
//!
//! Scales: a unit vector component or a movement axis of `UNIT` stands for 1.0;
//! angles are in millidegrees; elapsed time is in microseconds; speed is in
//! thousandths of a world unit per second; positions are in units of 10^-15 of
//! a world unit, so that one frame's displacement is an exact product and needs
//! no rounding.
use crate::capture::CaptureMode;
use vstd::arithmetic::div_mod::lemma_fundamental_div_mod_converse;
use vstd::prelude::*;

verus! {

/// The fixed-point value of 1.0 for axis and basis components.
pub const UNIT: i64 = 1000;

/// A full turn of yaw, in millidegrees.
pub const FULL_TURN: i64 = 360000;

/// The largest pitch magnitude that a pose may hold, in millidegrees.
pub const MAX_PITCH: i64 = 89999;

/// The pitch bound that `MotionConfig::new` configures: 89 degrees.
pub const DEFAULT_PITCH_LIMIT: i64 = 89000;

/// Positions saturate at this magnitude on every axis.
pub const WORLD_LIMIT: i128 = 1000000000000000000000000000000000000;

/// A point, in 10^-15 world units per axis.
#[derive(Clone, Copy, Debug, PartialEq, Eq, Structural)]
pub struct Vec3 {
    pub x: i128,
    pub y: i128,
    pub z: i128,
}

/// A direction or a movement input, with components scaled by `UNIT`.
#[derive(Clone, Copy, Debug, PartialEq, Eq, Structural)]
pub struct Axis3 {
    pub x: i64,
    pub y: i64,
    pub z: i64,
}

/// Yaw about the fixed world up axis and pitch above the horizon, in
/// millidegrees. There is no roll.
#[derive(Clone, Copy, Debug, PartialEq, Eq, Structural)]
pub struct Orientation {
    pub yaw: i64,
    pub pitch: i64,
}

#[derive(Clone, Copy, Debug, PartialEq, Eq, Structural)]
pub struct CameraPose {
    pub position: Vec3,
    pub orientation: Orientation,
}

/// The rig's local frame for an orientation: its right, up and back unit
/// vectors in world coordinates. `back` points away from the view, so a
/// negative z movement axis moves forward.
#[derive(Clone, Copy, Debug, PartialEq, Eq, Structural)]
pub struct Basis {
    pub right: Axis3,
    pub up: Axis3,
    pub back: Axis3,
}

/// Linear speed in thousandths of a world unit per second, mouse sensitivity
/// in millidegrees per count on each axis, and the pitch bound.
#[derive(Clone, Copy, Debug, PartialEq, Eq, Structural)]
pub struct MotionConfig {
    pub speed: u32,
    pub sensitivity_x: i32,
    pub sensitivity_y: i32,
    pub pitch_limit: i64,
}

/// One frame's input: held movement axes, mouse delta since the last frame, and
/// the elapsed time in microseconds.
#[derive(Clone, Copy, Debug, PartialEq, Eq, Structural)]
pub struct FrameInput {
    pub axis: Axis3,
    pub mouse_dx: i32,
    pub mouse_dy: i32,
    pub elapsed_us: i64,
}

pub open spec fn clamp(v: int, lo: int, hi: int) -> int {
    if v < lo {
        lo
    } else if v > hi {
        hi
    } else {
        v
    }
}

/// A component clamped to [-1.0, 1.0].
pub open spec fn unit_of(v: int) -> int {
    clamp(v, -UNIT, UNIT as int)
}

/// Elapsed time, with a negative value taken as zero.
pub open spec fn elapsed(dt: int) -> int {
    if dt < 0 {
        0
    } else {
        dt
    }
}

impl Orientation {
    pub open spec fn wf(self) -> bool {
        0 <= self.yaw < FULL_TURN && -MAX_PITCH <= self.pitch <= MAX_PITCH
    }
}

impl Vec3 {
    pub open spec fn wf(self) -> bool {
        -WORLD_LIMIT <= self.x <= WORLD_LIMIT && -WORLD_LIMIT <= self.y <= WORLD_LIMIT
            && -WORLD_LIMIT <= self.z <= WORLD_LIMIT
    }
}

impl CameraPose {
    pub open spec fn wf(self) -> bool {
        self.position.wf() && self.orientation.wf()
    }
}

impl MotionConfig {
    pub open spec fn wf(self) -> bool {
        0 <= self.pitch_limit <= MAX_PITCH
    }
}

/// The orientation after one frame's mouse delta: yaw turns freely and wraps
/// into one turn, pitch is clamped to the configured bound.
pub open spec fn look_spec(o: Orientation, input: FrameInput, cfg: MotionConfig) -> Orientation {
    Orientation {
        yaw: ((o.yaw + input.mouse_dx * cfg.sensitivity_x) % (FULL_TURN as int)) as i64,
        pitch: clamp(
            o.pitch + input.mouse_dy * cfg.sensitivity_y,
            -cfg.pitch_limit,
            cfg.pitch_limit as int,
        ) as i64,
    }
}

/// The velocity along one world axis, from that axis's components of the
/// basis vectors, in 10^-15 world units per microsecond.
pub open spec fn rate(r: int, u: int, b: int, axis: Axis3, speed: int) -> int {
    (unit_of(r) * unit_of(axis.x as int) + unit_of(u) * unit_of(axis.y as int) + unit_of(b)
        * unit_of(axis.z as int)) * speed
}

/// One coordinate moved at `v` for `dt` microseconds, saturating at the world
/// limit.
pub open spec fn moved(p: int, v: int, dt: int) -> int {
    clamp(p + v * elapsed(dt), -WORLD_LIMIT, WORLD_LIMIT as int)
}

/// The position after moving along `basis` by the input's axes for the input's
/// elapsed time.
pub open spec fn translate_spec(p: Vec3, basis: Basis, input: FrameInput, speed: int) -> Vec3 {
    let a = input.axis;
    let dt = input.elapsed_us as int;
    Vec3 {
        x: moved(
            p.x as int,
            rate(basis.right.x as int, basis.up.x as int, basis.back.x as int, a, speed),
            dt,
        ) as i128,
        y: moved(
            p.y as int,
            rate(basis.right.y as int, basis.up.y as int, basis.back.y as int, a, speed),
            dt,
        ) as i128,
        z: moved(
            p.z as int,
            rate(basis.right.z as int, basis.up.z as int, basis.back.z as int, a, speed),
            dt,
        ) as i128,
    }
}

/// One frame of motion: nothing while released; otherwise the look step, then
/// translation along `basis`, the frame of the new orientation.
pub open spec fn advance_spec(
    pose: CameraPose,
    mode: CaptureMode,
    input: FrameInput,
    cfg: MotionConfig,
    basis: Basis,
) -> CameraPose {
    match mode {
        CaptureMode::Released => pose,
        CaptureMode::Captured => CameraPose {
            position: translate_spec(pose.position, basis, input, cfg.speed as int),
            orientation: look_spec(pose.orientation, input, cfg),
        },
    }
}

fn clamp_unit(v: i64) -> (r: i64)
    ensures
        r == unit_of(v as int),
{
    if v < -UNIT {
        -UNIT
    } else if v > UNIT {
        UNIT
    } else {
        v
    }
}

/// The yaw `t` wrapped into one turn.
pub(crate) fn wrap_yaw(t: i128) -> (r: i64)
    requires
        -0x1_0000_0000_0000_0000 <= t <= 0x1_0000_0000_0000_0000,
    ensures
        r == (t as int) % (FULL_TURN as int),
        0 <= r < FULL_TURN,
{
    let m: u128 = FULL_TURN as u128;
    if t >= 0 {
        let r = (t as u128) % m;
        r as i64
    } else {
        let n: u128 = (-t) as u128;
        let q = n / m;
        let r = n % m;
        proof {
            assert(n == q * m + r);
        }
        if r == 0 {
            proof {
                lemma_fundamental_div_mod_converse(t as int, m as int, -(q as int), 0);
            }
            0
        } else {
            proof {
                assert(t == (-(q as int) - 1) * (m as int) + (m - r)) by (nonlinear_arith)
                    requires
                        n == q * m + r,
                        t == -(n as int),
                ;
                lemma_fundamental_div_mod_converse(t as int, m as int, -(q as int) - 1, (m - r) as int);
            }
            (m - r) as i64
        }
    }
}

proof fn lemma_product_bound(a: i32, b: i32)
    ensures
        -0x4000_0000_0000_0000 <= a * b <= 0x4000_0000_0000_0000,
{
    assert(-0x4000_0000_0000_0000 <= a * b <= 0x4000_0000_0000_0000) by (nonlinear_arith)
        requires
            -0x8000_0000 <= a < 0x8000_0000,
            -0x8000_0000 <= b < 0x8000_0000,
    ;
}

/// The look step alone: the orientation that `advance` gives a captured pose,
/// whose basis the caller hands to `advance`.
pub fn look(o: Orientation, input: &FrameInput, cfg: &MotionConfig) -> (r: Orientation)
    requires
        o.wf(),
        cfg.wf(),
    ensures
        r == look_spec(o, *input, *cfg),
        r.wf(),
        -cfg.pitch_limit <= r.pitch <= cfg.pitch_limit,
{
    proof {
        lemma_product_bound(input.mouse_dx, cfg.sensitivity_x);
        lemma_product_bound(input.mouse_dy, cfg.sensitivity_y);
    }
    let turn: i128 = input.mouse_dx as i128 * cfg.sensitivity_x as i128;
    let yaw = wrap_yaw(o.yaw as i128 + turn);
    let tilt: i64 = input.mouse_dy as i64 * cfg.sensitivity_y as i64;
    let raised: i64 = o.pitch + tilt;
    let pitch = if raised < -cfg.pitch_limit {
        -cfg.pitch_limit
    } else if raised > cfg.pitch_limit {
        cfg.pitch_limit
    } else {
        raised
    };
    Orientation { yaw, pitch }
}

/// One coordinate after a frame of movement.
fn move_coord(p: i128, r: i64, u: i64, b: i64, axis: &Axis3, speed: u32, dt: i64) -> (res: i128)
    requires
        -WORLD_LIMIT <= p <= WORLD_LIMIT,
    ensures
        res == moved(p as int, rate(r as int, u as int, b as int, *axis, speed as int), dt as int),
{
    let cr = clamp_unit(r);
    let cu = clamp_unit(u);
    let cb = clamp_unit(b);
    let ax = clamp_unit(axis.x);
    let ay = clamp_unit(axis.y);
    let az = clamp_unit(axis.z);
    proof {
        assert(-UNIT * UNIT <= cr * ax <= UNIT * UNIT) by (nonlinear_arith)
            requires -UNIT <= cr <= UNIT, -UNIT <= ax <= UNIT;
        assert(-UNIT * UNIT <= cu * ay <= UNIT * UNIT) by (nonlinear_arith)
            requires -UNIT <= cu <= UNIT, -UNIT <= ay <= UNIT;
        assert(-UNIT * UNIT <= cb * az <= UNIT * UNIT) by (nonlinear_arith)
            requires -UNIT <= cb <= UNIT, -UNIT <= az <= UNIT;
    }
    let dot: i64 = cr * ax + cu * ay + cb * az;
    let t: i64 = if dt < 0 {
        0
    } else {
        dt
    };
    proof {
        assert(-3000000 * 0x1_0000_0000 <= dot * speed <= 3000000 * 0x1_0000_0000) by (nonlinear_arith)
            requires -3000000 <= dot <= 3000000, 0 <= speed < 0x1_0000_0000;
    }
    let v: i128 = dot as i128 * speed as i128;
    proof {
        assert(-3000000 * 0x1_0000_0000 * 0x8000_0000_0000_0000 <= v * t <= 3000000
            * 0x1_0000_0000 * 0x8000_0000_0000_0000) by (nonlinear_arith)
            requires
                -3000000 * 0x1_0000_0000 <= v <= 3000000 * 0x1_0000_0000,
                0 <= t < 0x8000_0000_0000_0000,
        ;
    }
    let q: i128 = p + v * t as i128;
    if q < -WORLD_LIMIT {
        -WORLD_LIMIT
    } else if q > WORLD_LIMIT {
        WORLD_LIMIT
    } else {
        q
    }
}

/// Integrates one frame. While released the pose is returned unchanged; while
/// captured the mouse delta turns the camera (pitch clamped to the configured
/// bound) and the position moves along `basis`, the local frame of the new
/// orientation as `look` gives it, by the clamped axes times speed times elapsed
/// time.
pub fn advance(
    pose: &CameraPose,
    mode: CaptureMode,
    input: &FrameInput,
    cfg: &MotionConfig,
    basis: &Basis,
) -> (r: CameraPose)
    requires
        pose.wf(),
        cfg.wf(),
    ensures
        r == advance_spec(*pose, mode, *input, *cfg, *basis),
        r.wf(),
        mode == CaptureMode::Released ==> r == *pose,
        mode == CaptureMode::Captured ==> -cfg.pitch_limit <= r.orientation.pitch
            <= cfg.pitch_limit,
{
    match mode {
        CaptureMode::Released => *pose,
        CaptureMode::Captured => {
            let orientation = look(pose.orientation, input, cfg);
            let p = pose.position;
            let a = &input.axis;
            let dt = input.elapsed_us;
            let position = Vec3 {
                x: move_coord(p.x, basis.right.x, basis.up.x, basis.back.x, a, cfg.speed, dt),
                y: move_coord(p.y, basis.right.y, basis.up.y, basis.back.y, a, cfg.speed, dt),
                z: move_coord(p.z, basis.right.z, basis.up.z, basis.back.z, a, cfg.speed, dt),
            };
            CameraPose { position, orientation }
        },
    }
}

impl MotionConfig {
    /// A configuration with the given speed and sensitivities and the default
    /// pitch bound.
    pub fn new(speed: u32, sensitivity_x: i32, sensitivity_y: i32) -> (r: MotionConfig)
        ensures
            r == (MotionConfig { speed, sensitivity_x, sensitivity_y, pitch_limit: DEFAULT_PITCH_LIMIT }),
            r.wf(),
    {
        MotionConfig { speed, sensitivity_x, sensitivity_y, pitch_limit: DEFAULT_PITCH_LIMIT }
    }

    /// This configuration with pitch bounded by `limit`, itself clamped to
    /// [0, MAX_PITCH].
    pub fn with_pitch_limit(self, limit: i64) -> (r: MotionConfig)
        ensures
            r == (MotionConfig { pitch_limit: clamp(limit as int, 0, MAX_PITCH as int) as i64, ..self }),
            r.wf(),
    {
        let pitch_limit = if limit < 0 {
            0
        } else if limit > MAX_PITCH {
            MAX_PITCH
        } else {
            limit
        };
        MotionConfig { pitch_limit, ..self }
    }
}

/// One frame of motion keeps a pose well formed, and a captured frame leaves
/// the pitch within the configured bound.
pub proof fn lemma_advance_wf(
    pose: CameraPose,
    mode: CaptureMode,
    input: FrameInput,
    cfg: MotionConfig,
    basis: Basis,
)
    requires
        pose.wf(),
        cfg.wf(),
    ensures
        advance_spec(pose, mode, input, cfg, basis).wf(),
        mode == CaptureMode::Captured ==> -cfg.pitch_limit <= advance_spec(
            pose,
            mode,
            input,
            cfg,
            basis,
        ).orientation.pitch <= cfg.pitch_limit,
{
    lemma_product_bound(input.mouse_dx, cfg.sensitivity_x);
    let t = pose.orientation.yaw + input.mouse_dx * cfg.sensitivity_x;
    assert(0 <= t % (FULL_TURN as int) < FULL_TURN);
}

/// The pose after captured frames `frames` in turn, each with its input and
/// the basis of its new orientation.
pub open spec fn run_spec(pose: CameraPose, frames: Seq<(FrameInput, Basis)>, cfg: MotionConfig) -> CameraPose
    decreases frames.len(),
{
    if frames.len() == 0 {
        pose
    } else {
        let f = frames.last();
        advance_spec(run_spec(pose, frames.drop_last(), cfg), CaptureMode::Captured, f.0, cfg, f.1)
    }
}

/// However large the mouse deltas, a run of at least one captured frame leaves
/// the pitch within the configured bound, and every pose along the way well
/// formed.
pub proof fn lemma_pitch_stays_clamped(pose: CameraPose, frames: Seq<(FrameInput, Basis)>, cfg: MotionConfig)
    requires
        pose.wf(),
        cfg.wf(),
        frames.len() > 0,
    ensures
        run_spec(pose, frames, cfg).wf(),
        -cfg.pitch_limit <= run_spec(pose, frames, cfg).orientation.pitch <= cfg.pitch_limit,
    decreases frames.len(),
{
    if frames.len() > 1 {
        lemma_pitch_stays_clamped(pose, frames.drop_last(), cfg);
    }
    let f = frames.last();
    lemma_advance_wf(run_spec(pose, frames.drop_last(), cfg), CaptureMode::Captured, f.0, cfg, f.1);
}

/// With no mouse movement, a captured frame of `t` microseconds moves each
/// coordinate by `t` times a velocity that depends
/// on the basis, the axes and the speed alone (saturating at the world limit):
/// displacement scales linearly with elapsed time, and is zero for zero time.
pub proof fn lemma_displacement_linear_in_time(
    pose: CameraPose,
    cfg: MotionConfig,
    basis: Basis,
    axis: Axis3,
    t: i64,
)
    requires
        pose.wf(),
        cfg.wf(),
        t >= 0,
    ensures
        ({
            let r = advance_spec(
                pose,
                CaptureMode::Captured,
                FrameInput { axis, mouse_dx: 0, mouse_dy: 0, elapsed_us: t },
                cfg,
                basis,
            );
            let b = basis;
            let s = cfg.speed as int;
            &&& r.position.x == clamp(
                pose.position.x + t * rate(b.right.x as int, b.up.x as int, b.back.x as int, axis, s),
                -WORLD_LIMIT,
                WORLD_LIMIT as int,
            )
            &&& r.position.y == clamp(
                pose.position.y + t * rate(b.right.y as int, b.up.y as int, b.back.y as int, axis, s),
                -WORLD_LIMIT,
                WORLD_LIMIT as int,
            )
            &&& r.position.z == clamp(
                pose.position.z + t * rate(b.right.z as int, b.up.z as int, b.back.z as int, axis, s),
                -WORLD_LIMIT,
                WORLD_LIMIT as int,
            )
            &&& t == 0 ==> r.position == pose.position
        }),
{
    let b = basis;
    let s = cfg.speed as int;
    let vx = rate(b.right.x as int, b.up.x as int, b.back.x as int, axis, s);
    let vy = rate(b.right.y as int, b.up.y as int, b.back.y as int, axis, s);
    let vz = rate(b.right.z as int, b.up.z as int, b.back.z as int, axis, s);
    assert(vx * t == t * vx && vy * t == t * vy && vz * t == t * vz) by (nonlinear_arith);
}

} // verus!
