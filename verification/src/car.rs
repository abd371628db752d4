//! Car controller system: once per fixed tick, for every entity carrying
//! both a Car and a Transform, it turns input intent into velocity and
//! orientation changes — acceleration along the local forward axis clamped
//! per tick, exponential lateral damping, yaw only while driving, and
//! explicit velocity integration of the position.

use vstd::prelude::*;

use crate::input::{InputState, KEY_A, KEY_D, KEY_S, KEY_W};
use crate::math::{
    NEG_ONE_BITS, ONE_BITS, ZERO_BITS, Vec3, clamp_scalar, f32_mul, f32_neg, f32_sub,
    int_dir_bits, lt_bits, mat4_col2, mat4_mul, mat4_mul_bits, mul_bits, neg_bits,
    rotation_bits, rotation_matrix, spec_add3, spec_clamp, spec_col2, spec_dot3, spec_neg3,
    spec_scale3, spec_sub3, spec_up_axis, sub_bits, up_axis, vec3_add, vec3_dot, vec3_neg,
    vec3_scale, vec3_sub,
};
use crate::transform::Transform;
use crate::world::{Car, EntityRecord, World};

verus! {

/// The acceleration bound, `20.0` units per second squared, as `f32` bits.
pub const ACCEL_RATE_BITS: u32 = 0x41A0_0000;
/// The lateral damping factor subtracted every tick, `0.1`, as `f32` bits.
pub const LATERAL_DAMP_BITS: u32 = 0x3DCC_CCCD;

/// Drive intent from the forward/back keys: `+1`, `-1`, or `0` when neither
/// or both are held.
pub open spec fn spec_movement_input(input: InputState) -> int {
    (if input.pressed(KEY_W) {
        1int
    } else {
        0int
    }) - (if input.pressed(KEY_S) {
        1int
    } else {
        0int
    })
}

/// Turn intent from the left/right keys: `+1`, `-1`, or `0` when neither or
/// both are held.
pub open spec fn spec_turn_input(input: InputState) -> int {
    (if input.pressed(KEY_A) {
        1int
    } else {
        0int
    }) - (if input.pressed(KEY_D) {
        1int
    } else {
        0int
    })
}

/// The controller's local forward axis in world space: the negated third
/// column of the rotation matrix.
pub open spec fn spec_forward(rotation: Seq<u32>) -> Vec3 {
    spec_neg3(spec_col2(rotation))
}

/// The per-tick change applied to the forward speed: the difference between
/// desired and current forward speed, clamped to `±(accel_rate * dt)`.
pub open spec fn spec_speed_change(car: Car, rotation: Seq<u32>, mi: int, dt: u32) -> u32 {
    let fwd = spec_forward(rotation);
    let desired = spec_scale3(spec_scale3(fwd, car.speed), int_dir_bits(mi));
    let current = spec_dot3(car.velocity, fwd);
    let delta = sub_bits(spec_dot3(desired, fwd), current);
    spec_clamp(delta, mul_bits(neg_bits(ACCEL_RATE_BITS), dt), mul_bits(ACCEL_RATE_BITS, dt))
}

/// The velocity after one tick: the clamped speed change applied along
/// forward, then the lateral remainder damped by the fixed factor.
pub open spec fn spec_new_velocity(car: Car, rotation: Seq<u32>, mi: int, dt: u32) -> Vec3 {
    let fwd = spec_forward(rotation);
    let v1 = spec_add3(car.velocity, spec_scale3(fwd, spec_speed_change(car, rotation, mi, dt)));
    let lateral = spec_sub3(v1, spec_scale3(fwd, spec_dot3(v1, fwd)));
    spec_sub3(v1, spec_scale3(lateral, LATERAL_DAMP_BITS))
}

/// The rotation after one tick: turned about the world up axis by
/// `ti * turn_speed * dt` radians, but only while driving (`mi != 0`) and
/// turning (`ti != 0`); otherwise unchanged.
pub open spec fn spec_new_rotation(
    rotation: Seq<u32>,
    mi: int,
    ti: int,
    turn_speed: u32,
    dt: u32,
) -> Seq<u32> {
    if mi != 0 && ti != 0 {
        let angle = mul_bits(mul_bits(int_dir_bits(ti), turn_speed), dt);
        mat4_mul_bits(rotation_bits(angle, spec_up_axis()), rotation)
    } else {
        rotation
    }
}

/// The position after one tick: the new velocity integrated over `dt`.
pub open spec fn spec_new_position(position: Vec3, new_velocity: Vec3, dt: u32) -> Vec3 {
    spec_add3(position, spec_scale3(new_velocity, dt))
}

/// How one tick of the car system relates an entity record to its previous
/// state: entities with both a Car and a Transform get the controller
/// update, every other record is untouched.
pub open spec fn car_stepped(o: EntityRecord, n: EntityRecord, mi: int, ti: int, dt: u32) -> bool {
    match (o.car, o.transform) {
        (Some(c), Some(t)) => {
            let v = spec_new_velocity(c, t.rotation@, mi, dt);
            &&& n.id == o.id
            &&& n.mesh == o.mesh
            &&& n.material == o.material
            &&& n.car == Some(Car { velocity: v, speed: c.speed, turn_speed: c.turn_speed })
            &&& match n.transform {
                Some(nt) => {
                    &&& nt.position == spec_new_position(t.position, v, dt)
                    &&& nt.rotation@ == spec_new_rotation(t.rotation@, mi, ti, c.turn_speed, dt)
                    &&& nt.scale == t.scale
                    &&& nt.model_matrix == t.model_matrix
                    &&& nt.normal_matrix == t.normal_matrix
                    &&& nt.requires_update
                },
                None => false,
            }
        },
        _ => n == o,
    }
}

/// The drive intent: `+1` for the forward key, `-1` for the back key,
/// cancelling to `0` when both are held.
fn movement_input(input: &InputState) -> (r: i32)
    ensures
        r as int == spec_movement_input(*input),
        -1 <= r <= 1,
{
    let mut m: i32 = 0;
    if input.is_key_pressed(KEY_W) {
        m = m + 1;
    }
    if input.is_key_pressed(KEY_S) {
        m = m - 1;
    }
    m
}

/// The turn intent from the left/right keys.
fn turn_input(input: &InputState) -> (r: i32)
    ensures
        r as int == spec_turn_input(*input),
        -1 <= r <= 1,
{
    let mut t: i32 = 0;
    if input.is_key_pressed(KEY_A) {
        t = t + 1;
    }
    if input.is_key_pressed(KEY_D) {
        t = t - 1;
    }
    t
}

/// The `f32` bit pattern of a drive direction in `{-1, 0, +1}`.
fn dir_bits(i: i32) -> (r: u32)
    requires
        -1 <= i <= 1,
    ensures
        r == int_dir_bits(i as int),
{
    if i == 1 {
        ONE_BITS
    } else if i == -1 {
        NEG_ONE_BITS
    } else {
        ZERO_BITS
    }
}

/// One controller update of a single car entity.
fn car_step(car: &Car, tr: &Transform, mi: i32, ti: i32, dt: u32) -> (r: (Car, Transform))
    requires
        -1 <= mi <= 1,
        -1 <= ti <= 1,
    ensures
        ({
            let v = spec_new_velocity(*car, tr.rotation@, mi as int, dt);
            &&& r.0 == Car { velocity: v, speed: car.speed, turn_speed: car.turn_speed }
            &&& r.1.position == spec_new_position(tr.position, v, dt)
            &&& r.1.rotation@ == spec_new_rotation(tr.rotation@, mi as int, ti as int, car.turn_speed, dt)
            &&& r.1.scale == tr.scale
            &&& r.1.model_matrix == tr.model_matrix
            &&& r.1.normal_matrix == tr.normal_matrix
            &&& r.1.requires_update
        }),
{
    let fwd = vec3_neg(mat4_col2(&tr.rotation));
    let desired = vec3_scale(vec3_scale(fwd, car.speed), dir_bits(mi));
    let current = vec3_dot(car.velocity, fwd);
    let delta_speed = f32_sub(vec3_dot(desired, fwd), current);
    let change = clamp_scalar(
        delta_speed,
        f32_mul(f32_neg(ACCEL_RATE_BITS), dt),
        f32_mul(ACCEL_RATE_BITS, dt),
    );
    let v1 = vec3_add(car.velocity, vec3_scale(fwd, change));
    let lateral = vec3_sub(v1, vec3_scale(fwd, vec3_dot(v1, fwd)));
    let velocity = vec3_sub(v1, vec3_scale(lateral, LATERAL_DAMP_BITS));
    let mut rotation = tr.rotation;
    if mi != 0 {
        if ti != 0 {
            let angle = f32_mul(f32_mul(dir_bits(ti), car.turn_speed), dt);
            let rot_delta = rotation_matrix(angle, up_axis());
            rotation = mat4_mul(&rot_delta, &rotation);
        }
    }
    let position = vec3_add(tr.position, vec3_scale(velocity, dt));
    (
        Car { velocity, speed: car.speed, turn_speed: car.turn_speed },
        Transform {
            position,
            rotation,
            scale: tr.scale,
            model_matrix: tr.model_matrix,
            normal_matrix: tr.normal_matrix,
            requires_update: true,
        },
    )
}

/// One tick of the car controller over the whole world: every entity with
/// both a Car and a Transform gets the controller update for the current
/// input intent; every other entity is untouched. This system never fails:
/// entities lacking a component are simply skipped.
pub fn car_system(world: &mut World, input: &InputState, delta: u32)
    ensures
        final(world).next_id == old(world).next_id,
        final(world).entries@.len() == old(world).entries@.len(),
        forall|j: int|
            0 <= j < old(world).entries@.len() ==> car_stepped(
                old(world).entries@[j],
                final(world).entries@[j],
                spec_movement_input(*input),
                spec_turn_input(*input),
                delta,
            ),
{
    let mi = movement_input(input);
    let ti = turn_input(input);
    let n = world.entries.len();
    let mut i: usize = 0;
    while i < n
        invariant
            n == world.entries@.len(),
            i <= n,
            world.entries@.len() == old(world).entries@.len(),
            world.next_id == old(world).next_id,
            mi as int == spec_movement_input(*input),
            ti as int == spec_turn_input(*input),
            -1 <= mi <= 1,
            -1 <= ti <= 1,
            forall|j: int|
                0 <= j < i ==> car_stepped(
                    old(world).entries@[j],
                    world.entries@[j],
                    mi as int,
                    ti as int,
                    delta,
                ),
            forall|j: int| i <= j < n ==> world.entries@[j] == old(world).entries@[j],
        decreases n - i,
    {
        let rec = world.entries[i];
        match (rec.car, rec.transform) {
            (Some(car), Some(tr)) => {
                let (new_car, new_tr) = car_step(&car, &tr, mi, ti, delta);
                world.entries[i] = EntityRecord {
                    id: rec.id,
                    transform: Some(new_tr),
                    mesh: rec.mesh,
                    material: rec.material,
                    car: Some(new_car),
                };
            },
            _ => {},
        }
        i += 1;
    }
}

/// Acceleration is clamped: the per-tick forward-speed change the controller
/// applies is the desired change clamped to `±(accel_rate * dt)` — it equals
/// one of the two bounds, or lies between them in the float order.
pub proof fn lemma_speed_change_clamped(car: Car, rotation: Seq<u32>, mi: int, dt: u32)
    ensures
        ({
            let change = spec_speed_change(car, rotation, mi, dt);
            let lo = mul_bits(neg_bits(ACCEL_RATE_BITS), dt);
            let hi = mul_bits(ACCEL_RATE_BITS, dt);
            change == lo || change == hi || (!lt_bits(change, lo) && !lt_bits(hi, change))
        }),
{
}

/// Turning is gated on drive input: one tick with `movement_input == 0`
/// leaves the rotation unchanged, whatever the turn keys say.
pub proof fn lemma_turning_gated(rotation: Seq<u32>, ti: int, turn_speed: u32, dt: u32)
    ensures
        spec_new_rotation(rotation, 0, ti, turn_speed, dt) == rotation,
{
}

/// The rotation after `n` ticks of the car controller with fixed input
/// intent. Each tick changes the rotation only through `spec_new_rotation`,
/// so this captures every run of consecutive ticks.
pub open spec fn spec_rotation_after_ticks(
    rotation: Seq<u32>,
    mi: int,
    ti: int,
    turn_speed: u32,
    dt: u32,
    n: nat,
) -> Seq<u32>
    decreases n,
{
    if n == 0 {
        rotation
    } else {
        spec_new_rotation(
            spec_rotation_after_ticks(rotation, mi, ti, turn_speed, dt, (n - 1) as nat),
            mi,
            ti,
            turn_speed,
            dt,
        )
    }
}

/// Turning is gated for any tick count: with `movement_input == 0` on every
/// tick, the rotation is unchanged after any number of ticks, regardless of
/// the turn-key state.
pub proof fn lemma_turning_gated_ticks(
    rotation: Seq<u32>,
    ti: int,
    turn_speed: u32,
    dt: u32,
    n: nat,
)
    ensures
        spec_rotation_after_ticks(rotation, 0, ti, turn_speed, dt, n) == rotation,
    decreases n,
{
    if n > 0 {
        lemma_turning_gated_ticks(rotation, ti, turn_speed, dt, (n - 1) as nat);
    }
}

} // verus!
