use vstd::prelude::*;

use crate::input::{key_code_of, Key, KeyState};

verus! {

/// Fixed-point scale of lengths: `1000` stands for one world unit.
pub const UNIT: i64 = 1000;

/// Largest magnitude of a position coordinate, in thousandths of a unit.
pub const WORLD_LIMIT: i64 = 1_000_000_000_000_000;

/// One full turn, in thousandths of a degree.
pub const FULL_TURN: i32 = 360_000;

/// Largest magnitude of the pitch, in thousandths of a degree (89 degrees).
pub const PITCH_LIMIT: i32 = 89_000;

/// A vector of three fixed-point coordinates (see `UNIT`).
#[derive(Debug, Copy, Clone, PartialEq, Eq, Structural)]
pub struct Vec3i {
    pub x: i64,
    pub y: i64,
    pub z: i64,
}

/// `v` clamped to `[lo, hi]`.
pub open spec fn clamp_spec(v: int, lo: int, hi: int) -> int {
    if v < lo {
        lo
    } else if v > hi {
        hi
    } else {
        v
    }
}

fn clamp_i64(v: i64, lo: i64, hi: i64) -> (r: i64)
    requires
        lo <= hi,
    ensures
        r == clamp_spec(v as int, lo as int, hi as int),
{
    if v < lo {
        lo
    } else if v > hi {
        hi
    } else {
        v
    }
}

/// `v` with each coordinate clamped to `[-limit, limit]`.
pub open spec fn clamp_vec(v: Vec3i, limit: int) -> Vec3i {
    Vec3i {
        x: clamp_spec(v.x as int, -limit, limit) as i64,
        y: clamp_spec(v.y as int, -limit, limit) as i64,
        z: clamp_spec(v.z as int, -limit, limit) as i64,
    }
}

fn clamp_vec_exec(v: Vec3i, limit: i64) -> (r: Vec3i)
    requires
        0 <= limit,
    ensures
        r == clamp_vec(v, limit as int),
{
    Vec3i { x: clamp_i64(v.x, -limit, limit), y: clamp_i64(v.y, -limit, limit), z: clamp_i64(v.z, -limit, limit) }
}

/// Every coordinate lies in `[-limit, limit]`.
pub open spec fn vec_within(v: Vec3i, limit: int) -> bool {
    -limit <= v.x <= limit && -limit <= v.y <= limit && -limit <= v.z <= limit
}

/// `c * s` in units of `1 / UNIT`, rounded toward zero.
pub open spec fn scale_spec(c: int, s: int) -> int {
    if c >= 0 {
        c * s / UNIT as int
    } else {
        -((-c) * s / UNIT as int)
    }
}

fn scale(c: i64, s: u32) -> (r: i64)
    requires
        -2 * UNIT <= c <= 2 * UNIT,
    ensures
        r == scale_spec(c as int, s as int),
        -2 * (s as int) <= r <= 2 * (s as int),
{
    assert(-2000 * (s as int) <= (c as int) * (s as int) <= 2000 * (s as int)) by (nonlinear_arith)
        requires
            -2000 <= c <= 2000,
            0 <= s,
    ;
    if c >= 0 {
        let p = c * (s as i64);
        assert(p / 1000 <= 2 * (s as int)) by (nonlinear_arith)
            requires
                0 <= p <= 2000 * (s as int),
        ;
        p / UNIT
    } else {
        let m = -c;
        assert(0 <= (m as int) * (s as int) <= 2000 * (s as int)) by (nonlinear_arith)
            requires
                0 <= m <= 2000,
                0 <= s,
        ;
        let p = m * (s as i64);
        assert(p / 1000 <= 2 * (s as int)) by (nonlinear_arith)
            requires
                0 <= p <= 2000 * (s as int),
        ;
        -(p / UNIT)
    }
}

/// `cross(a, b)`, brought back to the fixed-point scale.
pub open spec fn cross_spec(a: Vec3i, b: Vec3i) -> Vec3i {
    Vec3i {
        x: scale_spec(a.y * b.z - a.z * b.y, 1) as i64,
        y: scale_spec(a.z * b.x - a.x * b.z, 1) as i64,
        z: scale_spec(a.x * b.y - a.y * b.x, 1) as i64,
    }
}

fn cross_term(a: i64, b: i64, c: i64, d: i64) -> (r: i64)
    requires
        -UNIT <= a <= UNIT,
        -UNIT <= b <= UNIT,
        -UNIT <= c <= UNIT,
        -UNIT <= d <= UNIT,
    ensures
        r == scale_spec(a * b - c * d, 1),
        -2 * UNIT <= r <= 2 * UNIT,
{
    assert(-1_000_000 <= a * b <= 1_000_000) by (nonlinear_arith)
        requires
            -1000 <= a <= 1000,
            -1000 <= b <= 1000,
    ;
    assert(-1_000_000 <= c * d <= 1_000_000) by (nonlinear_arith)
        requires
            -1000 <= c <= 1000,
            -1000 <= d <= 1000,
    ;
    let t = a * b - c * d;
    if t >= 0 {
        t / UNIT
    } else {
        -((-t) / UNIT)
    }
}

/// The fly camera. Lengths are fixed point (see `UNIT`); angles are in
/// thousandths of a degree.
#[derive(Debug, Copy, Clone, PartialEq, Eq, Structural)]
pub struct Camera {
    pub position: Vec3i,
    pub target: Vec3i,
    pub direction: Vec3i,
    pub front: Vec3i,
    pub up: Vec3i,
    pub yaw: i32,
    pub pitch: i32,
}

/// The yaw `y` brought into `[0, FULL_TURN)`.
pub open spec fn wrap_yaw(y: int) -> int {
    y % (FULL_TURN as int)
}

/// The pitch `p` clamped to `[-PITCH_LIMIT, PITCH_LIMIT]`.
pub open spec fn clamp_pitch_spec(p: int) -> int {
    clamp_spec(p, -PITCH_LIMIT as int, PITCH_LIMIT as int)
}

/// Clamps a pitch to `[-89, 89]` degrees, so the view never flips over the
/// vertical.
pub fn clamp_pitch(p: i64) -> (r: i32)
    ensures
        r == clamp_pitch_spec(p as int),
        -PITCH_LIMIT <= r <= PITCH_LIMIT,
{
    clamp_i64(p, -(PITCH_LIMIT as i64), PITCH_LIMIT as i64) as i32
}

fn wrap_yaw_exec(y: i64) -> (r: i32)
    requires
        -3_000_000_000 <= y <= 3_000_000_000,
    ensures
        r == wrap_yaw(y as int),
        0 <= r < FULL_TURN,
{
    let shifted = y + 3_240_000_000i64;
    proof {
        vstd::arithmetic::div_mod::lemma_mod_multiples_vanish(9000, y as int, 360000);
        assert(shifted == 360000 * 9000 + y);
    }
    (shifted % (FULL_TURN as i64)) as i32
}

impl Camera {
    /// Coordinates lie in their fixed-point ranges, the yaw is within one
    /// turn, and the pitch is clamped.
    pub open spec fn wf(&self) -> bool {
        &&& vec_within(self.position, WORLD_LIMIT as int)
        &&& vec_within(self.target, WORLD_LIMIT as int)
        &&& vec_within(self.direction, UNIT as int)
        &&& vec_within(self.front, UNIT as int)
        &&& vec_within(self.up, UNIT as int)
        &&& 0 <= self.yaw < FULL_TURN
        &&& -PITCH_LIMIT <= self.pitch <= PITCH_LIMIT
    }

    /// A camera with the given fields, each brought into its range: positions
    /// into `WORLD_LIMIT`, direction vectors into `UNIT`, the yaw into one turn
    /// and the pitch into `[-89, 89]` degrees.
    pub fn new(position: Vec3i, target: Vec3i, direction: Vec3i, front: Vec3i, up: Vec3i, yaw: i32, pitch: i32) -> (r:
        Camera)
        ensures
            r.wf(),
            r.position == clamp_vec(position, WORLD_LIMIT as int),
            r.target == clamp_vec(target, WORLD_LIMIT as int),
            r.direction == clamp_vec(direction, UNIT as int),
            r.front == clamp_vec(front, UNIT as int),
            r.up == clamp_vec(up, UNIT as int),
            r.yaw == wrap_yaw(yaw as int),
            r.pitch == clamp_pitch_spec(pitch as int),
    {
        Camera {
            position: clamp_vec_exec(position, WORLD_LIMIT),
            target: clamp_vec_exec(target, WORLD_LIMIT),
            direction: clamp_vec_exec(direction, UNIT),
            front: clamp_vec_exec(front, UNIT),
            up: clamp_vec_exec(up, UNIT),
            yaw: wrap_yaw_exec(yaw as i64),
            pitch: clamp_pitch(pitch as i64),
        }
    }
}

/// Per-frame movement rates, applied the same way whatever time a frame took.
#[derive(Debug, Copy, Clone, PartialEq, Eq, Structural)]
pub struct CameraConfig {
    /// Distance moved per frame along each held direction, in thousandths of
    /// a unit.
    pub move_speed: u32,
    /// Angle turned per frame, in thousandths of a degree.
    pub turn_rate: u32,
}

/// `1` when only `pos` is held, `-1` when only `neg` is, else `0`.
pub open spec fn axis(keys: Set<u16>, pos: Key, neg: Key) -> int {
    (if keys.contains(key_code_of(pos)) {
        1int
    } else {
        0int
    }) - (if keys.contains(key_code_of(neg)) {
        1int
    } else {
        0int
    })
}

fn axis_exec(keys: &KeyState, pos: Key, neg: Key) -> (r: i64)
    ensures
        r == axis(keys@, pos, neg),
        -1 <= r <= 1,
{
    let p: i64 = if pos.is_pressed(keys) {
        1
    } else {
        0
    };
    let n: i64 = if neg.is_pressed(keys) {
        1
    } else {
        0
    };
    p - n
}

/// The camera's right vector: `cross(front, up)`.
pub open spec fn right_of(c: Camera) -> Vec3i {
    cross_spec(c.front, c.up)
}

/// How far one frame moves along one coordinate: forward/back (W/S) along
/// `front`, right/left (D/A) along the right vector, up/down (space/C) along
/// `up`, each at `speed`.
pub open spec fn move_along(keys: Set<u16>, f: int, r: int, u: int, speed: int) -> int {
    axis(keys, Key::W, Key::S) * scale_spec(f, speed) + axis(keys, Key::D, Key::A) * scale_spec(r, speed) + axis(
        keys,
        Key::SPC,
        Key::C,
    ) * scale_spec(u, speed)
}

/// The position after one frame of movement, kept inside `WORLD_LIMIT`.
pub open spec fn moved_position(c: Camera, keys: Set<u16>, config: CameraConfig) -> Vec3i {
    let r = right_of(c);
    let s = config.move_speed as int;
    Vec3i {
        x: clamp_spec(c.position.x + move_along(keys, c.front.x as int, r.x as int, c.up.x as int, s), -WORLD_LIMIT as int, WORLD_LIMIT as int) as i64,
        y: clamp_spec(c.position.y + move_along(keys, c.front.y as int, r.y as int, c.up.y as int, s), -WORLD_LIMIT as int, WORLD_LIMIT as int) as i64,
        z: clamp_spec(c.position.z + move_along(keys, c.front.z as int, r.z as int, c.up.z as int, s), -WORLD_LIMIT as int, WORLD_LIMIT as int) as i64,
    }
}

/// The yaw after one frame: E turns right, Q turns left.
pub open spec fn turned_yaw(c: Camera, keys: Set<u16>, config: CameraConfig) -> int {
    wrap_yaw(c.yaw + axis(keys, Key::E, Key::Q) * (config.turn_rate as int % FULL_TURN as int))
}

/// The pitch after one frame: R looks up, F looks down, clamped.
pub open spec fn turned_pitch(c: Camera, keys: Set<u16>, config: CameraConfig) -> int {
    clamp_pitch_spec(c.pitch + axis(keys, Key::R, Key::F) * config.turn_rate as int)
}

/// `a + b`, kept inside `WORLD_LIMIT`.
pub open spec fn offset_point(a: Vec3i, b: Vec3i) -> Vec3i {
    clamp_vec(Vec3i { x: (a.x + b.x) as i64, y: (a.y + b.y) as i64, z: (a.z + b.z) as i64 }, WORLD_LIMIT as int)
}

fn offset_point_exec(a: Vec3i, b: Vec3i) -> (r: Vec3i)
    requires
        vec_within(a, WORLD_LIMIT as int),
        vec_within(b, UNIT as int),
    ensures
        r == offset_point(a, b),
{
    clamp_vec_exec(Vec3i { x: a.x + b.x, y: a.y + b.y, z: a.z + b.z }, WORLD_LIMIT)
}

fn move_coord(p: i64, keys: &KeyState, f: i64, r: i64, u: i64, speed: u32) -> (out: i64)
    requires
        -WORLD_LIMIT <= p <= WORLD_LIMIT,
        -UNIT <= f <= UNIT,
        -2 * UNIT <= r <= 2 * UNIT,
        -UNIT <= u <= UNIT,
    ensures
        out == clamp_spec(p + move_along(keys@, f as int, r as int, u as int, speed as int), -WORLD_LIMIT as int, WORLD_LIMIT as int),
{
    let fw = axis_exec(keys, Key::W, Key::S);
    let sd = axis_exec(keys, Key::D, Key::A);
    let vt = axis_exec(keys, Key::SPC, Key::C);
    let a = scale(f, speed);
    let b = scale(r, speed);
    let c = scale(u, speed);
    assert(-2 * (speed as int) <= fw * a <= 2 * (speed as int)) by (nonlinear_arith)
        requires -1 <= fw <= 1, -2 * (speed as int) <= a <= 2 * (speed as int);
    assert(-2 * (speed as int) <= sd * b <= 2 * (speed as int)) by (nonlinear_arith)
        requires -1 <= sd <= 1, -2 * (speed as int) <= b <= 2 * (speed as int);
    assert(-2 * (speed as int) <= vt * c <= 2 * (speed as int)) by (nonlinear_arith)
        requires -1 <= vt <= 1, -2 * (speed as int) <= c <= 2 * (speed as int);
    clamp_i64(p + fw * a + sd * b + vt * c, -WORLD_LIMIT, WORLD_LIMIT)
}

impl Camera {
    /// Applies one frame of held keys: moves the position along the current
    /// basis (W/S, D/A, space/C), turns the yaw (E/Q) and the pitch (R/F),
    /// clamps the pitch to `[-89, 89]` degrees, and aims the target at
    /// `position + front`. `front`, `up` and `direction` are left for
    /// `set_orientation` to re-derive from the new yaw and pitch.
    pub fn process_input(&mut self, keys: &KeyState, config: &CameraConfig)
        requires
            old(self).wf(),
        ensures
            final(self).wf(),
            -PITCH_LIMIT <= final(self).pitch <= PITCH_LIMIT,
            final(self).position == moved_position(*old(self), keys@, *config),
            final(self).yaw == turned_yaw(*old(self), keys@, *config),
            final(self).pitch == turned_pitch(*old(self), keys@, *config),
            final(self).target == offset_point(final(self).position, old(self).front),
            final(self).front == old(self).front,
            final(self).up == old(self).up,
            final(self).direction == old(self).direction,
    {
        let f = self.front;
        let u = self.up;
        let r = Vec3i {
            x: cross_term(f.y, u.z, f.z, u.y),
            y: cross_term(f.z, u.x, f.x, u.z),
            z: cross_term(f.x, u.y, f.y, u.x),
        };
        assert(r == right_of(*old(self)));
        let speed = config.move_speed;
        let p = self.position;
        self.position = Vec3i {
            x: move_coord(p.x, keys, f.x, r.x, u.x, speed),
            y: move_coord(p.y, keys, f.y, r.y, u.y, speed),
            z: move_coord(p.z, keys, f.z, r.z, u.z, speed),
        };
        let turn = (config.turn_rate % (FULL_TURN as u32)) as i64;
        let yaw_dir = axis_exec(keys, Key::E, Key::Q);
        assert(-360000 <= yaw_dir * turn <= 360000) by (nonlinear_arith)
            requires
                -1 <= yaw_dir <= 1,
                0 <= turn < 360000,
        ;
        self.yaw = wrap_yaw_exec(self.yaw as i64 + yaw_dir * turn);
        let pitch_dir = axis_exec(keys, Key::R, Key::F);
        assert(-(u32::MAX as int) <= pitch_dir * (config.turn_rate as int) <= u32::MAX) by (nonlinear_arith)
            requires
                -1 <= pitch_dir <= 1,
                0 <= config.turn_rate <= u32::MAX,
        ;
        self.pitch = clamp_pitch(self.pitch as i64 + pitch_dir * (config.turn_rate as i64));
        self.target = offset_point_exec(self.position, f);
    }

    /// Installs the basis re-derived from the yaw and pitch: `front` (also
    /// the view direction) and `up`, each coordinate clamped to `UNIT`, and
    /// aims the target at `position + front`.
    pub fn set_orientation(&mut self, front: Vec3i, up: Vec3i)
        requires
            old(self).wf(),
        ensures
            final(self).wf(),
            final(self).front == clamp_vec(front, UNIT as int),
            final(self).direction == clamp_vec(front, UNIT as int),
            final(self).up == clamp_vec(up, UNIT as int),
            final(self).target == offset_point(old(self).position, final(self).front),
            final(self).position == old(self).position,
            final(self).yaw == old(self).yaw,
            final(self).pitch == old(self).pitch,
    {
        let f = clamp_vec_exec(front, UNIT);
        self.front = f;
        self.direction = f;
        self.up = clamp_vec_exec(up, UNIT);
        self.target = offset_point_exec(self.position, f);
    }
}

} // verus!
